//! Login use case types and orchestration.

pub mod authenticate;
pub mod change_password;
pub mod commands;
pub mod errors;
pub mod password_reset;
pub mod results;
pub mod service;

pub use authenticate::{AuthenticateUseCase, AuthenticationService, AuthenticationSuccess};
pub use commands::LoginRequest;
pub use errors::LoginError;
pub use results::{LoginResponse, LoginResult};
pub use service::{LoginService, LoginUseCase};
pub use change_password::{
    ChangePasswordError, ChangePasswordRequest, ChangePasswordResponse, ChangePasswordResult,
    ChangePasswordService, ChangePasswordUseCase,
};
pub use password_reset::{
    ForgotPasswordRequest, ForgotPasswordResponse, PasswordResetService, PasswordResetUseCase,
    ResetPasswordError, ResetPasswordRequest, ResetPasswordResponse, ResetPasswordResult,
};
