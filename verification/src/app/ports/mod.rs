//! Application-owned interfaces implemented by infrastructure adapters.

pub mod auth_account_repository;
pub mod compliance_service;
pub mod observability;
pub mod token_issuer;
pub mod token_session_manager;

pub use auth_account_repository::{
    account_under, accounts_after_save, bound_to_token, found_by_reset_token, AuthAccountRepository,
};
pub use compliance_service::ComplianceService;
pub use observability::{
    AuthBusinessEvent, LoginFailureReason, LogoutFailureReason, MeLookupFailureReason,
    emit_all, Observability, PasswordChangeFailureReason, PasswordResetFailureReason,
};
pub use token_issuer::TokenIssuer;
pub use token_session_manager::{SessionUser, TokenSessionManager};
