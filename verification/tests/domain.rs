use login_base::domain::auth_account::AuthAccount;
use login_base::domain::player::Player;
use login_base::text::{decimal_string, same_text};

#[test]
fn new_account_starts_clean() {
    let account = AuthAccount::new(7, "demo", "password", false);

    assert_eq!(account.id, 7);
    assert_eq!(account.username, "demo");
    assert_eq!(account.password_hash, "password");
    assert!(!account.is_locked);
    assert_eq!(account.failed_login_attempts, 0);
    assert_eq!(account.password_reset_token, None);
    assert_eq!(account.password_reset_expires_at, None);
}

#[test]
fn failed_attempts_lock_at_the_threshold() {
    let mut account = AuthAccount::new(1, "demo", "password", false);

    account.record_failed_login_attempt(3);
    assert_eq!(account.failed_login_attempts, 1);
    assert!(!account.is_locked);
    account.record_failed_login_attempt(3);
    assert_eq!(account.failed_login_attempts, 2);
    assert!(!account.is_locked);
    account.record_failed_login_attempt(3);
    assert_eq!(account.failed_login_attempts, 3);
    assert!(account.is_locked);
}

#[test]
fn clearing_failures_keeps_the_lock() {
    let mut account = AuthAccount::new(1, "demo", "password", true);
    account.failed_login_attempts = 3;

    account.clear_failed_login_attempts();

    assert_eq!(account.failed_login_attempts, 0);
    assert!(account.is_locked);
}

#[test]
fn set_password_unlocks_and_clears_reset_state() {
    let mut account = AuthAccount::new(1, "demo", "password", true);
    account.failed_login_attempts = 3;
    account.issue_password_reset("token".to_string(), 100);

    account.set_password("new-password".to_string());

    assert_eq!(account.password_hash, "new-password");
    assert!(!account.is_locked);
    assert_eq!(account.failed_login_attempts, 0);
    assert_eq!(account.password_reset_token, None);
    assert_eq!(account.password_reset_expires_at, None);
}

#[test]
fn reset_token_is_accepted_until_its_expiry() {
    let mut account = AuthAccount::new(1, "demo", "password", false);
    account.issue_password_reset("token".to_string(), 1_000);

    assert!(account.can_reset_with("token", 999));
    assert!(account.can_reset_with("token", 1_000));
    assert!(!account.can_reset_with("token", 1_001));
    assert!(!account.can_reset_with("other", 999));

    account.clear_password_reset();
    assert!(!account.can_reset_with("token", 999));
}

#[test]
fn duplicate_copies_every_field() {
    let mut account = AuthAccount::new(9, "someone", "secret", true);
    account.failed_login_attempts = 4;
    account.issue_password_reset("t".to_string(), 5);

    let copy = account.duplicate();

    assert_eq!(copy.id, 9);
    assert_eq!(copy.username, "someone");
    assert_eq!(copy.password_hash, "secret");
    assert!(copy.is_locked);
    assert_eq!(copy.failed_login_attempts, 4);
    assert_eq!(copy.password_reset_token.as_deref(), Some("t"));
    assert_eq!(copy.password_reset_expires_at, Some(5));
}

#[test]
fn new_player_holds_its_fields() {
    let player = Player::new(2, "demo", "password", true);

    assert_eq!(player.id, 2);
    assert_eq!(player.username, "demo");
    assert_eq!(player.password_hash, "password");
    assert!(player.is_locked);
}

#[test]
fn decimal_string_renders_like_display() {
    for n in [0u64, 7, 10, 42, 100, 1_700_000_000, u64::MAX] {
        assert_eq!(decimal_string(n), n.to_string());
    }
}

#[test]
fn same_text_compares_characters() {
    assert!(same_text("demo", "demo"));
    assert!(!same_text("demo", "Demo"));
    assert!(!same_text("demo", "demo-2"));
    assert!(same_text("", ""));
}
