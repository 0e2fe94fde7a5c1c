use std::sync::{Arc, Mutex};

use login_base::app::login::{
    ChangePasswordError, ChangePasswordRequest, ChangePasswordResponse, ChangePasswordService,
    ChangePasswordUseCase,
};
use login_base::app::ports::{
    AuthAccountRepository, AuthBusinessEvent, Observability, PasswordChangeFailureReason,
};
use login_base::domain::auth_account::AuthAccount;

struct TestAuthAccountRepository {
    account: Option<AuthAccount>,
}

impl AuthAccountRepository for TestAuthAccountRepository {
    fn get_by_username(&self, username: &str) -> Option<AuthAccount> {
        self.account
            .as_ref()
            .filter(|account| account.username == username)
            .cloned()
    }

    fn get_by_reset_token(&self, _token: &str) -> Option<AuthAccount> {
        None
    }

    fn save(&mut self, account: AuthAccount) {
        self.account = Some(account);
    }
}

#[derive(Clone, Default)]
struct TestObservability {
    events: Arc<Mutex<Vec<AuthBusinessEvent>>>,
}

impl Observability for TestObservability {
    fn emit(&mut self, event: AuthBusinessEvent) {
        self.events
            .lock()
            .expect("observability mutex should be available")
            .push(event);
    }
}

fn test_observability() -> TestObservability {
    TestObservability::default()
}

fn recorded(observability: &TestObservability) -> Vec<AuthBusinessEvent> {
    observability
        .events
        .lock()
        .expect("observability mutex should be available")
        .clone()
}

fn make_request(current_password: &str, new_password: &str) -> ChangePasswordRequest {
    ChangePasswordRequest {
        username: "demo".to_string(),
        current_password: current_password.to_string(),
        new_password: new_password.to_string(),
    }
}

#[test]
fn change_password_succeeds_for_valid_current_password() {
    let observability = test_observability();
    let repo = TestAuthAccountRepository {
        account: Some(AuthAccount::new(1, "demo", "password", false)),
    };
    let mut service = ChangePasswordService::new(repo, observability.clone());

    let result = service.change_password(make_request("password", "new-password"));

    assert_eq!(
        result,
        Ok(ChangePasswordResponse {
            message: "Password changed".to_string(),
        })
    );
    assert_eq!(
        recorded(&observability).as_slice(),
        [AuthBusinessEvent::PasswordChanged {
            account_id: 1,
            username: "demo".to_string(),
        }]
    );
}

#[test]
fn change_password_fails_when_current_password_is_wrong() {
    let observability = test_observability();
    let repo = TestAuthAccountRepository {
        account: Some(AuthAccount::new(1, "demo", "password", false)),
    };
    let mut service = ChangePasswordService::new(repo, observability.clone());

    let result = service.change_password(make_request("wrong-password", "new-password"));

    assert_eq!(result, Err(ChangePasswordError::InvalidCredentials));
    assert_eq!(
        recorded(&observability).as_slice(),
        [AuthBusinessEvent::PasswordChangeFailed {
            username: "demo".to_string(),
            reason: PasswordChangeFailureReason::InvalidCurrentPassword,
        }]
    );
}

#[test]
fn change_password_fails_for_locked_account() {
    let observability = test_observability();
    let repo = TestAuthAccountRepository {
        account: Some(AuthAccount::new(1, "demo", "password", true)),
    };
    let mut service = ChangePasswordService::new(repo, observability.clone());

    let result = service.change_password(make_request("password", "new-password"));

    assert_eq!(result, Err(ChangePasswordError::AccountLocked));
    assert_eq!(
        recorded(&observability).as_slice(),
        [AuthBusinessEvent::PasswordChangeFailed {
            username: "demo".to_string(),
            reason: PasswordChangeFailureReason::AccountLocked,
        }]
    );
}

#[test]
fn change_password_rejects_reusing_the_existing_password() {
    let observability = test_observability();
    let repo = TestAuthAccountRepository {
        account: Some(AuthAccount::new(1, "demo", "password", false)),
    };
    let mut service = ChangePasswordService::new(repo, observability.clone());

    let result = service.change_password(make_request("password", "password"));

    assert_eq!(result, Err(ChangePasswordError::PasswordReuseNotAllowed));
    assert_eq!(
        recorded(&observability).as_slice(),
        [AuthBusinessEvent::PasswordChangeFailed {
            username: "demo".to_string(),
            reason: PasswordChangeFailureReason::PasswordReuseNotAllowed,
        }]
    );
}
