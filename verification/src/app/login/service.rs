//! The login use case: authentication followed by token issuance.

use vstd::prelude::*;
use vstd::string::*;

use crate::app::ports::TokenIssuer;

use super::authenticate::{AuthenticateUseCase, AuthenticationSuccess};

use super::commands::LoginRequest;
use super::errors::LoginError;
use super::results::{LoginResponse, LoginResult};

verus! {

/// Application-facing interface for executing the login flow.
pub trait LoginUseCase: Sized {
    /// Whether a login of `req` in the current state may answer `result` and leave `after`.
    spec fn login_step(&self, req: LoginRequest, result: LoginResult, after: Self) -> bool;

    /// Attempts to authenticate an auth account and issue a token on success.
    fn login(&mut self, req: LoginRequest) -> (result: LoginResult)
        ensures
            old(self).login_step(req, result, *final(self)),
    ;
}

/// Whether `response` is the success response for `success` with the issued `token`.
pub open spec fn is_login_response(
    response: LoginResponse,
    success: AuthenticationSuccess,
    token: String,
) -> bool {
    &&& response.account_id == success.account.id
    &&& response.username == success.account.username
    &&& response.message@ == "OK"@
    &&& response.token == token
}

/// Builds the success response for an authenticated account and its issued token.
pub fn login_response(success: AuthenticationSuccess, token: String) -> (response: LoginResponse)
    ensures
        is_login_response(response, success, token),
{
    LoginResponse {
        account_id: success.account.id,
        username: success.account.username,
        message: String::from_str("OK"),
        token,
    }
}

/// Thin login wrapper that issues a token after successful authentication.
pub struct LoginService<A: AuthenticateUseCase, T: TokenIssuer> {
    authenticator: A,
    token_issuer: T,
}

impl<A: AuthenticateUseCase, T: TokenIssuer> LoginService<A, T> {
    /// The authentication use case the service runs.
    pub closed spec fn authenticator(&self) -> A {
        self.authenticator
    }

    /// The token issuer the service issues through.
    pub closed spec fn token_issuer(&self) -> T {
        self.token_issuer
    }

    /// Creates a login service from its required authentication and token ports.
    pub fn new(authenticator: A, token_issuer: T) -> (service: Self)
        ensures
            service.authenticator() == authenticator,
            service.token_issuer() == token_issuer,
    {
        LoginService { authenticator, token_issuer }
    }
}

impl<A: AuthenticateUseCase, T: TokenIssuer> LoginUseCase for LoginService<A, T> {
    /// Authentication of `req` runs once and leaves its state; an authentication failure is
    /// answered unchanged and no token is issued; on success one token is issued for the
    /// authenticated account and the response carries the account's id and username, the
    /// message "OK" and that token.
    open spec fn login_step(&self, req: LoginRequest, result: LoginResult, after: Self) -> bool {
        &&& self.authenticator().authentication_leaves(req, after.authenticator())
        &&& match self.authenticator().authentication(req) {
            Err(error) => {
                &&& result == Err::<LoginResponse, LoginError>(error)
                &&& after.token_issuer().issued() == self.token_issuer().issued()
            },
            Ok(success) => {
                &&& result matches Ok(response)
                &&& response.account_id == success.account.id
                &&& response.username == success.account.username
                &&& response.message@ == "OK"@
                &&& after.token_issuer().issued() == self.token_issuer().issued().push(
                    (success.account, response.token@),
                )
            },
        }
    }

    fn login(&mut self, req: LoginRequest) -> (result: LoginResult) {
        match self.authenticator.authenticate(req) {
            Err(error) => Err(error),
            Ok(success) => {
                let token = self.token_issuer.issue_for(&success.account);
                let response = login_response(success, token);
                Ok(response)
            },
        }
    }
}

} // verus!
