use login_base::app::login::authenticate::{check_credentials, compliance_decision, CredentialCheck};
use login_base::app::login::change_password::decide_password_change;
use login_base::app::login::password_reset::{decide_password_reset, decide_reset_request};
use login_base::app::login::{
    ChangePasswordError, ChangePasswordRequest, ForgotPasswordRequest, LoginError, LoginRequest,
    ResetPasswordError, ResetPasswordRequest,
};
use login_base::app::player_login::{check_player, compliance_response, LoginRequest as PlayerLoginRequest};
use login_base::app::ports::{AuthBusinessEvent, LoginFailureReason, PasswordResetFailureReason};
use login_base::domain::auth_account::AuthAccount;
use login_base::domain::player::Player;

fn request(password: &str) -> LoginRequest {
    LoginRequest {
        username: "demo".to_string(),
        password: password.to_string(),
    }
}

#[test]
fn credential_check_counts_a_wrong_password() {
    let mut account = AuthAccount::new(1, "demo", "password", false);
    account.failed_login_attempts = 1;

    match check_credentials(&request("nope"), Some(account)) {
        CredentialCheck::Rejected { error, updated, events } => {
            assert_eq!(error, LoginError::InvalidCredentials);
            let updated = updated.expect("the failure should be saved");
            assert_eq!(updated.failed_login_attempts, 2);
            assert!(!updated.is_locked);
            assert_eq!(
                events,
                vec![AuthBusinessEvent::LoginFailed {
                    username: "demo".to_string(),
                    reason: LoginFailureReason::WrongPassword,
                }]
            );
        }
        CredentialCheck::Verified { .. } => panic!("a wrong password must not verify"),
    }
}

#[test]
fn credential_check_holds_the_failure_count_at_its_maximum() {
    let mut account = AuthAccount::new(1, "demo", "password", false);
    account.failed_login_attempts = u32::MAX;

    match check_credentials(&request("nope"), Some(account)) {
        CredentialCheck::Rejected { error, updated, .. } => {
            assert_eq!(error, LoginError::AccountLocked);
            let saved = updated.expect("the failure is saved");
            assert_eq!(saved.failed_login_attempts, u32::MAX);
            assert!(saved.is_locked);
        }
        CredentialCheck::Verified { .. } => panic!("a wrong password must not verify"),
    }
}

#[test]
fn credential_check_verifies_the_right_password() {
    let mut account = AuthAccount::new(1, "demo", "password", false);
    account.failed_login_attempts = 2;

    match check_credentials(&request("password"), Some(account)) {
        CredentialCheck::Verified { account } => assert_eq!(account.failed_login_attempts, 2),
        CredentialCheck::Rejected { .. } => panic!("the right password must verify"),
    }
}

#[test]
fn compliance_decision_excludes_or_admits() {
    let mut account = AuthAccount::new(5, "demo", "password", false);
    account.failed_login_attempts = 2;

    let (result, saved, event) = compliance_decision(account.duplicate(), true);
    assert_eq!(result.err(), Some(LoginError::SelfExcluded));
    assert!(saved.is_none());
    assert_eq!(
        event,
        AuthBusinessEvent::LoginFailed {
            username: "demo".to_string(),
            reason: LoginFailureReason::SelfExcluded,
        }
    );

    let (result, saved, event) = compliance_decision(account, false);
    assert_eq!(saved.map(|saved| saved.failed_login_attempts), Some(0));
    assert_eq!(
        result.map(|success| (success.account.id, success.account.failed_login_attempts)).ok(),
        Some((5, 0))
    );
    assert_eq!(
        event,
        AuthBusinessEvent::LoginSucceeded {
            account_id: 5,
            username: "demo".to_string(),
        }
    );
}

#[test]
fn password_change_decision_saves_only_on_success() {
    let account = AuthAccount::new(1, "demo", "password", true);
    let (result, saved, _) = decide_password_change(
        ChangePasswordRequest {
            username: "demo".to_string(),
            current_password: "password".to_string(),
            new_password: "other".to_string(),
        },
        Some(account),
    );
    assert_eq!(result, Err(ChangePasswordError::AccountLocked));
    assert!(saved.is_none());

    let (result, saved, _) = decide_password_change(
        ChangePasswordRequest {
            username: "demo".to_string(),
            current_password: "password".to_string(),
            new_password: "other".to_string(),
        },
        Some(AuthAccount::new(1, "demo", "password", false)),
    );
    assert_eq!(result.map(|response| response.message).ok().as_deref(), Some("Password changed"));
    assert_eq!(saved.map(|account| account.password_hash).as_deref(), Some("other"));
}

#[test]
fn reset_request_decision_binds_the_token() {
    let (response, saved, events) = decide_reset_request(
        ForgotPasswordRequest {
            username: "demo".to_string(),
        },
        Some(AuthAccount::new(1, "demo", "password", false)),
        "reset-10-1".to_string(),
        10,
    );

    assert_eq!(response.reset_token, "reset-10-1");
    let saved = saved.expect("the account should be saved");
    assert_eq!(saved.password_reset_token.as_deref(), Some("reset-10-1"));
    assert_eq!(saved.password_reset_expires_at, Some(910));
    assert_eq!(
        events,
        vec![AuthBusinessEvent::PasswordResetRequested {
            username: "demo".to_string(),
            account_found: true,
        }]
    );
}

#[test]
fn reset_decision_rejects_an_expired_token() {
    let mut account = AuthAccount::new(1, "demo", "password", false);
    account.issue_password_reset("t".to_string(), 100);

    let (result, saved, events) = decide_password_reset(
        ResetPasswordRequest {
            token: "t".to_string(),
            new_password: "other".to_string(),
        },
        Some(account),
        101,
    );

    assert_eq!(result, Err(ResetPasswordError::InvalidToken));
    assert!(saved.is_none());
    assert_eq!(
        events,
        vec![AuthBusinessEvent::PasswordResetFailed {
            reason: PasswordResetFailureReason::InvalidToken,
        }]
    );
}

#[test]
fn player_check_orders_lock_before_password() {
    let locked = Player::new(1, "demo", "password", true);
    let rejected = check_player(
        &PlayerLoginRequest {
            username: "demo".to_string(),
            password: "wrong".to_string(),
        },
        Some(locked),
    );
    let response = rejected.err().expect("a locked player must be refused");
    assert!(!response.success);
    assert_eq!(response.message, "Account locked");

    let admitted = compliance_response(false);
    assert!(admitted.success);
    assert_eq!(admitted.message, "OK");
}
