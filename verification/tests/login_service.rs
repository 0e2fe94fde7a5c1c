use login_base::app::login::{
    AuthenticateUseCase, AuthenticationSuccess, LoginError, LoginRequest, LoginResponse,
    LoginService, LoginUseCase,
};
use login_base::app::ports::TokenIssuer;
use login_base::domain::auth_account::AuthAccount;

// Authentication is stubbed so these tests stay focused on login orchestration:
// propagate auth outcomes and issue a token only on success.
struct StubAuthenticateUseCase {
    result: Result<AuthenticationSuccess, LoginError>,
}

impl AuthenticateUseCase for StubAuthenticateUseCase {
    fn authentication(&self, _req: LoginRequest) -> Result<AuthenticationSuccess, LoginError> {
        self.result.clone()
    }

    // The stub keeps its fixed answer, whatever it is asked.
    fn authentication_leaves(&self, _req: LoginRequest, _after: Self) -> bool {
        true
    }

    fn authenticate(&mut self, _req: LoginRequest) -> Result<AuthenticationSuccess, LoginError> {
        self.result.clone()
    }
}

// The issuer double makes token creation deterministic for assertions.
struct StubTokenIssuer;

impl TokenIssuer for StubTokenIssuer {
    fn issue_for(&mut self, account: &AuthAccount) -> String {
        format!("token-for-{}", account.id)
    }
}

fn make_request(password: &str) -> LoginRequest {
    LoginRequest {
        username: "demo".to_string(),
        password: password.to_string(),
    }
}

#[test]
fn login_succeeds_for_valid_credentials() {
    let mut service = LoginService::new(
        StubAuthenticateUseCase {
            result: Ok(AuthenticationSuccess {
                account: AuthAccount::new(1, "demo", "password", false),
            }),
        },
        StubTokenIssuer,
    );

    let result = service.login(make_request("password"));

    assert!(matches!(
        result,
        Ok(LoginResponse {
            account_id,
            username,
            message,
            token
        }) if account_id == 1
            && username == "demo"
            && message == "OK"
            && token == "token-for-1"
    ));
}

#[test]
fn login_fails_when_username_is_unknown() {
    let mut service = LoginService::new(
        StubAuthenticateUseCase {
            result: Err(LoginError::InvalidCredentials),
        },
        StubTokenIssuer,
    );

    let result = service.login(make_request("password"));

    assert_eq!(result, Err(LoginError::InvalidCredentials));
}

#[test]
fn login_fails_when_password_is_wrong() {
    let mut service = LoginService::new(
        StubAuthenticateUseCase {
            result: Err(LoginError::InvalidCredentials),
        },
        StubTokenIssuer,
    );

    let result = service.login(make_request("wrong-password"));

    assert_eq!(result, Err(LoginError::InvalidCredentials));
}

#[test]
fn login_fails_when_account_is_locked() {
    let mut service = LoginService::new(
        StubAuthenticateUseCase {
            result: Err(LoginError::AccountLocked),
        },
        StubTokenIssuer,
    );

    let result = service.login(make_request("password"));

    assert_eq!(result, Err(LoginError::AccountLocked));
}

#[test]
fn login_fails_when_auth_account_is_self_excluded() {
    let mut service = LoginService::new(
        StubAuthenticateUseCase {
            result: Err(LoginError::SelfExcluded),
        },
        StubTokenIssuer,
    );

    let result = service.login(make_request("password"));

    assert_eq!(result, Err(LoginError::SelfExcluded));
}
