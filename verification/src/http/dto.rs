//! Request and response bodies of the HTTP API.

use vstd::prelude::*;

verus! {

/// Payload accepted by `POST /login`.
#[derive(Debug)]
pub struct LoginRequestDto {
    pub username: String,
    pub password: String,
}

/// Payload accepted by `POST /change-password`.
#[derive(Debug)]
pub struct ChangePasswordRequestDto {
    pub username: String,
    pub current_password: String,
    pub new_password: String,
}

/// Payload accepted by `POST /forgot-password`.
#[derive(Debug)]
pub struct ForgotPasswordRequestDto {
    pub username: String,
}

/// Payload accepted by `POST /reset-password`.
#[derive(Debug)]
pub struct ResetPasswordRequestDto {
    pub token: String,
    pub new_password: String,
}

/// Response returned by `POST /login`, tagged by `status`: "ok" or "error".
#[derive(Debug, PartialEq, Eq)]
pub enum LoginResponseDto {
    /// Successful authentication response.
    Success(LoginSuccessDto),
    /// Generic authentication failure response.
    Error(LoginErrorDto),
}

/// Success payload returned to the client.
/// This stays intentionally narrow so auth does not become a player-profile API.
#[derive(Debug, PartialEq, Eq)]
pub struct LoginSuccessDto {
    pub account_id: u64,
    pub username: String,
    pub message: String,
    pub token: String,
}

/// Generic error payload returned to the client.
#[derive(Debug, PartialEq, Eq)]
pub struct LoginErrorDto {
    pub message: String,
}

/// Response returned by the password management routes.
#[derive(Debug, PartialEq, Eq)]
pub struct PasswordActionResponseDto {
    pub status: &'static str,
    pub message: String,
}

/// Response returned by `POST /forgot-password`.
#[derive(Debug, PartialEq, Eq)]
pub struct ForgotPasswordResponseDto {
    pub status: &'static str,
    pub message: String,
    pub reset_token: String,
}

/// Response returned by `POST /logout`.
#[derive(Debug, PartialEq, Eq)]
pub struct LogoutResponseDto {
    pub status: &'static str,
    pub message: &'static str,
}

/// Response returned by `GET /me`.
/// This represents the authenticated subject only, not richer player profile data.
#[derive(Debug, PartialEq, Eq)]
pub struct MeResponseDto {
    pub account_id: u64,
    pub username: String,
}

/// Response returned by `GET /health`.
#[derive(Debug, PartialEq, Eq)]
pub struct HealthResponseDto {
    pub status: &'static str,
}

} // verus!
