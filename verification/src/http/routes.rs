//! How each route of the HTTP API answers, given the use cases and session ports.
//!
//! Authentication failures are answered alike, so that a client cannot tell an unknown
//! username from a wrong password, a locked account or an excluded one.

use vstd::prelude::*;
use vstd::string::*;

use crate::app::login::password_reset::RESET_TOKEN_TTL_SECONDS;
use crate::app::login::{
    ChangePasswordError, ChangePasswordRequest, ChangePasswordResult, ChangePasswordUseCase,
    ForgotPasswordRequest, ForgotPasswordResponse, LoginError, LoginRequest, LoginResult,
    LoginUseCase,
    PasswordResetUseCase, ResetPasswordError, ResetPasswordRequest, ResetPasswordResult,
};
use crate::app::ports::{
    AuthBusinessEvent, LogoutFailureReason, MeLookupFailureReason, Observability, SessionUser,
    TokenSessionManager,
};
use crate::http::dto::{
    ChangePasswordRequestDto, ForgotPasswordRequestDto, ForgotPasswordResponseDto,
    HealthResponseDto, LoginErrorDto, LoginRequestDto, LoginResponseDto, LoginSuccessDto,
    LogoutResponseDto, MeResponseDto, PasswordActionResponseDto, ResetPasswordRequestDto,
};
use crate::text::same_text;

verus! {

pub const STATUS_OK: u16 = 200;

pub const STATUS_BAD_REQUEST: u16 = 400;

pub const STATUS_UNAUTHORIZED: u16 = 401;

/// The token of an `Authorization` header value of the form "Bearer {token}".
pub open spec fn bearer_token_text(authorization: Seq<char>) -> Option<Seq<char>> {
    if authorization.len() >= 7 && authorization.take(7) == "Bearer "@ {
        Some(authorization.skip(7))
    } else {
        None
    }
}

/// Whether an optional `Authorization` header value carries a bearer token.
pub open spec fn has_bearer_token(authorization: Option<&str>) -> bool {
    authorization matches Some(value) && bearer_token_text(value@) is Some
}

/// Status for a login failure: every failure is unauthorized.
pub fn map_login_error(err: &LoginError) -> (status: u16)
    ensures
        status == STATUS_UNAUTHORIZED,
{
    match err {
        LoginError::InvalidCredentials | LoginError::AccountLocked | LoginError::SelfExcluded => {
            STATUS_UNAUTHORIZED
        },
    }
}

/// Status for a change-password failure.
pub fn map_change_password_error(err: &ChangePasswordError) -> (status: u16)
    ensures
        status == (match *err {
            ChangePasswordError::PasswordReuseNotAllowed => STATUS_BAD_REQUEST,
            _ => STATUS_UNAUTHORIZED,
        }),
{
    match err {
        ChangePasswordError::InvalidCredentials | ChangePasswordError::AccountLocked => {
            STATUS_UNAUTHORIZED
        },
        ChangePasswordError::PasswordReuseNotAllowed => STATUS_BAD_REQUEST,
    }
}

/// Status for a reset-password failure: every failure is a bad request.
pub fn map_reset_password_error(err: &ResetPasswordError) -> (status: u16)
    ensures
        status == STATUS_BAD_REQUEST,
{
    match err {
        ResetPasswordError::InvalidToken | ResetPasswordError::PasswordReuseNotAllowed => {
            STATUS_BAD_REQUEST
        },
    }
}

/// The one message returned for every login failure.
pub fn safe_error_message() -> (message: &'static str)
    ensures
        message@ == "Authentication failed"@,
{
    "Authentication failed"
}

/// The one message returned for every password-action failure.
pub fn safe_password_action_message() -> (message: &'static str)
    ensures
        message@ == "Password action failed"@,
{
    "Password action failed"
}

/// Whether `response` is the unauthorized logout answer.
pub open spec fn is_unauthorized_logout(response: (u16, LogoutResponseDto)) -> bool {
    &&& response.0 == STATUS_UNAUTHORIZED
    &&& response.1.status@ == "error"@
    &&& response.1.message@ == "Unauthorized"@
}

pub fn unauthorized_logout_response() -> (response: (u16, LogoutResponseDto))
    ensures
        is_unauthorized_logout(response),
{
    (STATUS_UNAUTHORIZED, LogoutResponseDto { status: "error", message: "Unauthorized" })
}

/// The bearer token of an `Authorization` header value, if it has the form "Bearer {token}".
pub fn bearer_token(authorization: Option<&str>) -> (token: Option<&str>)
    ensures
        match authorization {
            None => token is None,
            Some(value) => match bearer_token_text(value@) {
                Some(text) => token matches Some(t) && t@ == text,
                None => token is None,
            },
        },
{
    let value = match authorization {
        Some(value) => value,
        None => return None,
    };
    let len = value.unicode_len();
    if len < 7 {
        return None;
    }
    let prefix = value.substring_char(0, 7);
    if !same_text(prefix, "Bearer ") {
        return None;
    }
    Some(value.substring_char(7, len))
}

pub fn health_handler() -> (response: HealthResponseDto)
    ensures
        response.status@ == "ok"@,
{
    HealthResponseDto { status: "ok" }
}

/// Whether `response` is the answer to the login use case's `result`: the account's id,
/// username, message and token on success; on any failure, unauthorized with the one generic
/// message.
pub open spec fn login_http_answer(result: LoginResult, response: (u16, LoginResponseDto)) -> bool {
    match result {
        Ok(res) => response == (
            STATUS_OK,
            LoginResponseDto::Success(
                LoginSuccessDto {
                    account_id: res.account_id,
                    username: res.username,
                    message: res.message,
                    token: res.token,
                },
            ),
        ),
        Err(_) => {
            &&& response.0 == STATUS_UNAUTHORIZED
            &&& response.1 matches LoginResponseDto::Error(body)
            &&& body.message@ == "Authentication failed"@
        },
    }
}

/// The HTTP answer to the login use case's result.
pub fn login_http_response(result: LoginResult) -> (response: (u16, LoginResponseDto))
    ensures
        login_http_answer(result, response),
{
    match result {
        Ok(res) => (
            STATUS_OK,
            LoginResponseDto::Success(
                LoginSuccessDto {
                    account_id: res.account_id,
                    username: res.username,
                    message: res.message,
                    token: res.token,
                },
            ),
        ),
        Err(err) => (
            map_login_error(&err),
            LoginResponseDto::Error(
                LoginErrorDto { message: String::from_str(safe_error_message()) },
            ),
        ),
    }
}

/// Whether `response` is the answer to the change-password use case's `result`.
pub open spec fn change_password_http_answer(
    result: ChangePasswordResult,
    response: (u16, PasswordActionResponseDto),
) -> bool {
    match result {
        Ok(res) => response.0 == STATUS_OK && response.1.status@ == "ok"@ && response.1.message
            == res.message,
        Err(err) => response.0 == (if err == ChangePasswordError::PasswordReuseNotAllowed {
            STATUS_BAD_REQUEST
        } else {
            STATUS_UNAUTHORIZED
        }) && response.1.status@ == "error"@ && response.1.message@ == "Password action failed"@,
    }
}

/// The HTTP answer to the change-password use case's result.
pub fn change_password_http_response(result: ChangePasswordResult) -> (response: (
    u16,
    PasswordActionResponseDto,
))
    ensures
        change_password_http_answer(result, response),
{
    match result {
        Ok(res) => (STATUS_OK, PasswordActionResponseDto { status: "ok", message: res.message }),
        Err(err) => (
            map_change_password_error(&err),
            PasswordActionResponseDto {
                status: "error",
                message: String::from_str(safe_password_action_message()),
            },
        ),
    }
}

/// Whether `response` is the answer to the reset-password use case's `result`.
pub open spec fn reset_password_http_answer(
    result: ResetPasswordResult,
    response: (u16, PasswordActionResponseDto),
) -> bool {
    match result {
        Ok(res) => response.0 == STATUS_OK && response.1.status@ == "ok"@ && response.1.message
            == res.message,
        Err(_) => response.0 == STATUS_BAD_REQUEST && response.1.status@ == "error"@
            && response.1.message@ == "Password action failed"@,
    }
}

/// The HTTP answer to the reset-password use case's result.
pub fn reset_password_http_response(result: ResetPasswordResult) -> (response: (
    u16,
    PasswordActionResponseDto,
))
    ensures
        reset_password_http_answer(result, response),
{
    match result {
        Ok(res) => (STATUS_OK, PasswordActionResponseDto { status: "ok", message: res.message }),
        Err(err) => (
            map_reset_password_error(&err),
            PasswordActionResponseDto {
                status: "error",
                message: String::from_str(safe_password_action_message()),
            },
        ),
    }
}

/// The bearer token of an optional `Authorization` header value.
pub open spec fn authorization_token(authorization: Option<&str>) -> Option<Seq<char>> {
    match authorization {
        Some(value) => bearer_token_text(value@),
        None => None,
    }
}

/// The event `POST /logout` emits, given whether the session port found the bearer token
/// active and the identity it returned for it.
pub open spec fn logout_event(
    authorization: Option<&str>,
    active: bool,
    user: Option<SessionUser>,
) -> AuthBusinessEvent {
    match authorization_token(authorization) {
        None => AuthBusinessEvent::LogoutFailed { reason: LogoutFailureReason::MissingBearerToken },
        Some(_) => if active {
            AuthBusinessEvent::LogoutSucceeded {
                account_id: match user {
                    Some(u) => Some(u.account_id),
                    None => None,
                },
                username: match user {
                    Some(u) => Some(u.username),
                    None => None,
                },
            }
        } else {
            AuthBusinessEvent::LogoutFailed { reason: LogoutFailureReason::InvalidOrRevokedToken }
        },
    }
}

/// The event `GET /me` emits, given the identity the session port returned for the token.
pub open spec fn me_event(authorization: Option<&str>, user: Option<SessionUser>) -> AuthBusinessEvent {
    match authorization_token(authorization) {
        None => AuthBusinessEvent::MeLookupFailed {
            reason: MeLookupFailureReason::MissingBearerToken,
        },
        Some(_) => match user {
            None => AuthBusinessEvent::MeLookupFailed {
                reason: MeLookupFailureReason::InvalidOrRevokedToken,
            },
            Some(u) => AuthBusinessEvent::MeLookupSucceeded {
                account_id: u.account_id,
                username: u.username,
            },
        },
    }
}

/// The answer of `GET /me`, given the identity the session port returned for the token.
pub open spec fn me_answer(authorization: Option<&str>, user: Option<SessionUser>) -> Result<
    MeResponseDto,
    u16,
> {
    match authorization_token(authorization) {
        None => Err(STATUS_UNAUTHORIZED),
        Some(_) => match user {
            None => Err(STATUS_UNAUTHORIZED),
            Some(u) => Ok(MeResponseDto { account_id: u.account_id, username: u.username }),
        },
    }
}

/// The use cases and ports the routes are served from.
pub struct AppState<
    L: LoginUseCase,
    C: ChangePasswordUseCase,
    P: PasswordResetUseCase,
    T: TokenSessionManager,
    O: Observability,
> {
    /// Login use case injected at startup.
    pub login_service: L,
    /// Change-password use case injected at startup.
    pub change_password_service: C,
    /// Forgot/reset password use case injected at startup.
    pub password_reset_service: P,
    /// Token validator and revocation boundary.
    pub token_sessions: T,
    /// Business/security observability boundary.
    pub observability: O,
}

impl<
    L: LoginUseCase,
    C: ChangePasswordUseCase,
    P: PasswordResetUseCase,
    T: TokenSessionManager,
    O: Observability,
> AppState<L, C, P, T, O> {
    /// Serves the routes from the given use cases and ports.
    pub fn new(
        login_service: L,
        change_password_service: C,
        password_reset_service: P,
        token_sessions: T,
        observability: O,
    ) -> (state: Self)
        ensures
            state.login_service == login_service,
            state.change_password_service == change_password_service,
            state.password_reset_service == password_reset_service,
            state.token_sessions == token_sessions,
            state.observability == observability,
    {
        AppState {
            login_service,
            change_password_service,
            password_reset_service,
            token_sessions,
            observability,
        }
    }

    /// `POST /login`: hands the credentials to the login use case and answers whatever it
    /// returned.
    pub fn login_handler(&mut self, body: LoginRequestDto) -> (response: (
        u16,
        LoginResponseDto,
    ))
        ensures
            exists|result: LoginResult|
                {
                    &&& old(self).login_service.login_step(
                        (LoginRequest { username: body.username, password: body.password }),
                        result,
                        final(self).login_service,
                    )
                    &&& #[trigger] login_http_answer(result, response)
                },
            final(self).change_password_service == old(self).change_password_service,
            final(self).password_reset_service == old(self).password_reset_service,
            final(self).token_sessions == old(self).token_sessions,
            final(self).observability == old(self).observability,
    {
        let req = LoginRequest { username: body.username, password: body.password };
        let ghost request = req;
        let result = self.login_service.login(req);
        let ghost returned = result;
        let response = login_http_response(result);
        assert(login_http_answer(returned, response));
        response
    }

    /// `POST /change-password`: hands the request to the change-password use case and answers
    /// whatever it returned.
    pub fn change_password_handler(&mut self, body: ChangePasswordRequestDto) -> (response: (
        u16,
        PasswordActionResponseDto,
    ))
        ensures
            exists|result: ChangePasswordResult|
                {
                    &&& old(self).change_password_service.change_step(
                        (ChangePasswordRequest {
                            username: body.username,
                            current_password: body.current_password,
                            new_password: body.new_password,
                        }),
                        result,
                        final(self).change_password_service,
                    )
                    &&& #[trigger] change_password_http_answer(result, response)
                },
            final(self).login_service == old(self).login_service,
            final(self).password_reset_service == old(self).password_reset_service,
            final(self).token_sessions == old(self).token_sessions,
            final(self).observability == old(self).observability,
    {
        let req = ChangePasswordRequest {
            username: body.username,
            current_password: body.current_password,
            new_password: body.new_password,
        };
        let result = self.change_password_service.change_password(req);
        let ghost returned = result;
        let response = change_password_http_response(result);
        assert(change_password_http_answer(returned, response));
        response
    }

    /// `POST /forgot-password`: hands the username to the password-reset use case and always
    /// answers OK, with the use case's message and reset token.
    pub fn forgot_password_handler(&mut self, body: ForgotPasswordRequestDto, now: u64) -> (response:
        (u16, ForgotPasswordResponseDto))
        requires
            now <= u64::MAX - RESET_TOKEN_TTL_SECONDS,
        ensures
            response.0 == STATUS_OK,
            response.1.status@ == "ok"@,
            old(self).password_reset_service.reset_request_step(
                (ForgotPasswordRequest { username: body.username }),
                now,
                (ForgotPasswordResponse {
                    message: response.1.message,
                    reset_token: response.1.reset_token,
                }),
                final(self).password_reset_service,
            ),
            final(self).login_service == old(self).login_service,
            final(self).change_password_service == old(self).change_password_service,
            final(self).token_sessions == old(self).token_sessions,
            final(self).observability == old(self).observability,
    {
        let res = self.password_reset_service.request_reset(
            ForgotPasswordRequest { username: body.username },
            now,
        );
        (
            STATUS_OK,
            ForgotPasswordResponseDto {
                status: "ok",
                message: res.message,
                reset_token: res.reset_token,
            },
        )
    }

    /// `POST /reset-password`: hands the request to the password-reset use case and answers
    /// whatever it returned.
    pub fn reset_password_handler(&mut self, body: ResetPasswordRequestDto, now: u64) -> (response:
        (u16, PasswordActionResponseDto))
        ensures
            exists|result: ResetPasswordResult|
                {
                    &&& old(self).password_reset_service.reset_step(
                        (ResetPasswordRequest { token: body.token, new_password: body.new_password }),
                        now,
                        result,
                        final(self).password_reset_service,
                    )
                    &&& #[trigger] reset_password_http_answer(result, response)
                },
            final(self).login_service == old(self).login_service,
            final(self).change_password_service == old(self).change_password_service,
            final(self).token_sessions == old(self).token_sessions,
            final(self).observability == old(self).observability,
    {
        let req = ResetPasswordRequest { token: body.token, new_password: body.new_password };
        let result = self.password_reset_service.reset_password(req, now);
        let ghost returned = result;
        let response = reset_password_http_response(result);
        assert(reset_password_http_answer(returned, response));
        response
    }

    /// `POST /logout`: for a bearer token the session port finds active, revokes it (so it is
    /// no longer active) and answers OK; otherwise answers unauthorized and leaves the session
    /// port as it was. Emits `logout_event`.
    pub fn logout_handler(&mut self, authorization: Option<&str>) -> (response: (
        u16,
        LogoutResponseDto,
    ))
        ensures
            ({
                let token = authorization_token(authorization);
                let active = match token {
                    Some(t) => old(self).token_sessions.active(t),
                    None => false,
                };
                let user = match token {
                    Some(t) => old(self).token_sessions.user(t),
                    None => None,
                };
                &&& active ==> response.0 == STATUS_OK && response.1.status@ == "ok"@
                    && response.1.message@ == "Logged out"@ && !final(self).token_sessions.active(
                    token.unwrap(),
                ) && final(self).token_sessions.user(token.unwrap()) is None
                &&& !active ==> is_unauthorized_logout(response) && final(self).token_sessions
                    == old(self).token_sessions
                &&& final(self).observability.emitted() == old(self).observability.emitted().push(
                    logout_event(authorization, active, user),
                )
            }),
            final(self).login_service == old(self).login_service,
            final(self).change_password_service == old(self).change_password_service,
            final(self).password_reset_service == old(self).password_reset_service,
    {
        let token = match bearer_token(authorization) {
            Some(token) => token,
            None => {
                self.observability.emit(
                    AuthBusinessEvent::LogoutFailed {
                        reason: LogoutFailureReason::MissingBearerToken,
                    },
                );
                return unauthorized_logout_response();
            },
        };
        if !self.token_sessions.is_active(token) {
            self.observability.emit(
                AuthBusinessEvent::LogoutFailed { reason: LogoutFailureReason::InvalidOrRevokedToken },
            );
            return unauthorized_logout_response();
        }
        let user = self.token_sessions.current_user(token);
        self.token_sessions.revoke(token);
        let (account_id, username) = match user {
            Some(user) => (Some(user.account_id), Some(user.username)),
            None => (None, None),
        };
        self.observability.emit(AuthBusinessEvent::LogoutSucceeded { account_id, username });
        (STATUS_OK, LogoutResponseDto { status: "ok", message: "Logged out" })
    }

    /// `GET /me`: the identity the session port returns for the bearer token; unauthorized
    /// when the header has no bearer token or the token has no identity. Emits `me_event`.
    pub fn me_handler(&mut self, authorization: Option<&str>) -> (response: Result<
        MeResponseDto,
        u16,
    >)
        ensures
            ({
                let user = match authorization_token(authorization) {
                    Some(t) => old(self).token_sessions.user(t),
                    None => None,
                };
                &&& response == me_answer(authorization, user)
                &&& final(self).observability.emitted() == old(self).observability.emitted().push(
                    me_event(authorization, user),
                )
            }),
            final(self).login_service == old(self).login_service,
            final(self).change_password_service == old(self).change_password_service,
            final(self).password_reset_service == old(self).password_reset_service,
            final(self).token_sessions == old(self).token_sessions,
    {
        let token = match bearer_token(authorization) {
            Some(token) => token,
            None => {
                self.observability.emit(
                    AuthBusinessEvent::MeLookupFailed {
                        reason: MeLookupFailureReason::MissingBearerToken,
                    },
                );
                return Err(STATUS_UNAUTHORIZED);
            },
        };
        let user = match self.token_sessions.current_user(token) {
            Some(user) => user,
            None => {
                self.observability.emit(
                    AuthBusinessEvent::MeLookupFailed {
                        reason: MeLookupFailureReason::InvalidOrRevokedToken,
                    },
                );
                return Err(STATUS_UNAUTHORIZED);
            },
        };
        self.observability.emit(
            AuthBusinessEvent::MeLookupSucceeded {
                account_id: user.account_id,
                username: user.username.clone(),
            },
        );
        Ok(MeResponseDto { account_id: user.account_id, username: user.username })
    }
}

/// Every login failure gets the same answer, so the answer does not tell an unknown username
/// from a wrong password, a locked account or an excluded one.
pub proof fn lemma_login_failures_are_indistinguishable(
    first: LoginError,
    second: LoginError,
    first_response: (u16, LoginResponseDto),
    second_response: (u16, LoginResponseDto),
)
    requires
        login_http_answer(Err(first), first_response),
        login_http_answer(Err(second), second_response),
    ensures
        first_response.0 == second_response.0,
        first_response.1 matches LoginResponseDto::Error(a) && second_response.1 matches LoginResponseDto::Error(b)
            && a.message@ == b.message@,
{
}

/// Whatever follows "Bearer " in an `Authorization` header value, however long, is the
/// bearer token.
pub proof fn lemma_bearer_prefix_yields_the_whole_token(token: Seq<char>)
    ensures
        bearer_token_text("Bearer "@ + token) == Some(token),
{
    reveal_strlit("Bearer ");
    let value = "Bearer "@ + token;
    assert(value.take(7) =~= "Bearer "@);
    assert(value.skip(7) =~= token);
}

} // verus!
