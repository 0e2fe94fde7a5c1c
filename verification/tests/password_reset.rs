use std::sync::{Arc, Mutex};
use std::time::{SystemTime, UNIX_EPOCH};

use login_base::app::login::{
    ForgotPasswordRequest, PasswordResetService, PasswordResetUseCase, ResetPasswordError,
    ResetPasswordRequest, ResetPasswordResponse,
};
use login_base::app::ports::{
    AuthAccountRepository, AuthBusinessEvent, Observability, PasswordResetFailureReason,
};
use login_base::domain::auth_account::AuthAccount;

struct TestAuthAccountRepository {
    account: Option<AuthAccount>,
}

impl AuthAccountRepository for TestAuthAccountRepository {
    fn get_by_username(&self, username: &str) -> Option<AuthAccount> {
        self.account
            .as_ref()
            .filter(|account| account.username == username)
            .cloned()
    }

    fn get_by_reset_token(&self, token: &str) -> Option<AuthAccount> {
        self.account
            .as_ref()
            .filter(|account| account.password_reset_token.as_deref() == Some(token))
            .cloned()
    }

    fn save(&mut self, account: AuthAccount) {
        self.account = Some(account);
    }
}

#[derive(Clone, Default)]
struct TestObservability {
    events: Arc<Mutex<Vec<AuthBusinessEvent>>>,
}

impl Observability for TestObservability {
    fn emit(&mut self, event: AuthBusinessEvent) {
        self.events
            .lock()
            .expect("observability mutex should be available")
            .push(event);
    }
}

fn test_observability() -> TestObservability {
    TestObservability::default()
}

fn recorded(observability: &TestObservability) -> Vec<AuthBusinessEvent> {
    observability
        .events
        .lock()
        .expect("observability mutex should be available")
        .clone()
}

fn unix_timestamp() -> u64 {
    SystemTime::now()
        .duration_since(UNIX_EPOCH)
        .expect("system clock should be after unix epoch")
        .as_secs()
}

#[test]
fn forgot_password_issues_a_reset_token_for_existing_account() {
    let observability = test_observability();
    let repo = TestAuthAccountRepository {
        account: Some(AuthAccount::new(1, "demo", "password", false)),
    };
    let mut service = PasswordResetService::new(repo, observability.clone());

    let result = service.request_reset(
        ForgotPasswordRequest {
            username: "demo".to_string(),
        },
        unix_timestamp(),
    );

    assert_eq!(
        result.message,
        "If the account exists, reset instructions have been issued"
    );
    assert!(result.reset_token.starts_with("reset-"));
    assert_eq!(
        recorded(&observability).as_slice(),
        [AuthBusinessEvent::PasswordResetRequested {
            username: "demo".to_string(),
            account_found: true,
        }]
    );
}

#[test]
fn forgot_password_still_returns_generic_message_for_unknown_account() {
    let observability = test_observability();
    let repo = TestAuthAccountRepository { account: None };
    let mut service = PasswordResetService::new(repo, observability.clone());

    let result = service.request_reset(
        ForgotPasswordRequest {
            username: "missing".to_string(),
        },
        unix_timestamp(),
    );

    assert!(result.reset_token.starts_with("reset-"));
    assert_eq!(
        recorded(&observability).as_slice(),
        [AuthBusinessEvent::PasswordResetRequested {
            username: "missing".to_string(),
            account_found: false,
        }]
    );
}

#[test]
fn reset_password_succeeds_for_valid_reset_token() {
    let mut account = AuthAccount::new(1, "demo", "password", true);
    account.failed_login_attempts = 3;
    account.issue_password_reset("valid-token".to_string(), unix_timestamp() + 300);
    let observability = test_observability();
    let repo = TestAuthAccountRepository {
        account: Some(account),
    };
    let mut service = PasswordResetService::new(repo, observability.clone());

    let result = service.reset_password(
        ResetPasswordRequest {
            token: "valid-token".to_string(),
            new_password: "new-password".to_string(),
        },
        unix_timestamp(),
    );

    assert_eq!(
        result,
        Ok(ResetPasswordResponse {
            message: "Password reset".to_string(),
        })
    );
    assert_eq!(
        recorded(&observability).as_slice(),
        [AuthBusinessEvent::PasswordResetCompleted {
            account_id: 1,
            username: "demo".to_string(),
        }]
    );
}

#[test]
fn reset_password_fails_for_invalid_reset_token() {
    let observability = test_observability();
    let repo = TestAuthAccountRepository {
        account: Some(AuthAccount::new(1, "demo", "password", false)),
    };
    let mut service = PasswordResetService::new(repo, observability.clone());

    let result = service.reset_password(
        ResetPasswordRequest {
            token: "missing-token".to_string(),
            new_password: "new-password".to_string(),
        },
        unix_timestamp(),
    );

    assert_eq!(result, Err(ResetPasswordError::InvalidToken));
    assert_eq!(
        recorded(&observability).as_slice(),
        [AuthBusinessEvent::PasswordResetFailed {
            reason: PasswordResetFailureReason::InvalidToken,
        }]
    );
}

#[test]
fn reset_password_rejects_reusing_the_existing_password() {
    let mut account = AuthAccount::new(1, "demo", "password", false);
    account.issue_password_reset("valid-token".to_string(), unix_timestamp() + 300);
    let observability = test_observability();
    let repo = TestAuthAccountRepository {
        account: Some(account),
    };
    let mut service = PasswordResetService::new(repo, observability.clone());

    let result = service.reset_password(
        ResetPasswordRequest {
            token: "valid-token".to_string(),
            new_password: "password".to_string(),
        },
        unix_timestamp(),
    );

    assert_eq!(result, Err(ResetPasswordError::PasswordReuseNotAllowed));
    assert_eq!(
        recorded(&observability).as_slice(),
        [AuthBusinessEvent::PasswordResetFailed {
            reason: PasswordResetFailureReason::PasswordReuseNotAllowed,
        }]
    );
}
