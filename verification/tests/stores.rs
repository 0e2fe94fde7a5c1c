use login_base::app::player_login::PlayerRepository;
use login_base::app::ports::{AuthAccountRepository, ComplianceService, Observability};
use login_base::app::ports::AuthBusinessEvent;
use login_base::domain::auth_account::AuthAccount;
use login_base::infra::in_memory_auth_account_repo::InMemoryAuthAccountRepository;
use login_base::infra::in_memory_player_repo::InMemoryPlayerRepository;
use login_base::infra::mock_compliance::MockComplianceService;
use login_base::infra::noop_observability::NoopObservability;

#[test]
fn demo_repository_holds_the_demo_user() {
    let repo = InMemoryAuthAccountRepository::new_with_demo_user();

    let account = repo.get_by_username("demo").expect("demo account should exist");
    assert_eq!(account.id, 1);
    assert_eq!(account.password_hash, "password");
    assert!(!account.is_locked);
    assert!(repo.get_by_username("demo-2").is_none());
}

#[test]
fn demo_users_are_numbered_after_the_first() {
    let repo = InMemoryAuthAccountRepository::new_with_demo_users(100);

    assert_eq!(repo.get_by_username("demo").map(|a| a.id), Some(1));
    assert_eq!(repo.get_by_username("demo-2").map(|a| a.id), Some(2));
    assert_eq!(repo.get_by_username("demo-100").map(|a| a.id), Some(100));
    assert!(repo.get_by_username("demo-1").is_none());
    assert!(repo.get_by_username("demo-101").is_none());
}

#[test]
fn empty_repository_has_no_accounts() {
    let repo = InMemoryAuthAccountRepository::new_with_demo_users(0);

    assert!(repo.get_by_username("demo").is_none());
    assert!(repo.get_by_reset_token("anything").is_none());
}

#[test]
fn saved_account_is_read_back() {
    let mut repo = InMemoryAuthAccountRepository::new_with_demo_users(2);
    let mut account = repo.get_by_username("demo").unwrap();
    account.record_failed_login_attempt(3);

    repo.save(account);

    assert_eq!(repo.get_by_username("demo").unwrap().failed_login_attempts, 1);
    assert_eq!(repo.get_by_username("demo-2").unwrap().failed_login_attempts, 0);

    repo.save(AuthAccount::new(50, "new-user", "pw", false));
    assert_eq!(repo.get_by_username("new-user").map(|a| a.id), Some(50));
}

#[test]
fn reset_token_lookup_finds_the_bound_account() {
    let mut repo = InMemoryAuthAccountRepository::new_with_demo_users(3);
    let mut account = repo.get_by_username("demo-2").unwrap();
    account.issue_password_reset("reset-1-1".to_string(), 100);
    repo.save(account);

    assert_eq!(repo.get_by_reset_token("reset-1-1").map(|a| a.id), Some(2));
    assert!(repo.get_by_reset_token("reset-1-2").is_none());
}

#[test]
fn player_repository_finds_the_demo_player() {
    let repo = InMemoryPlayerRepository::new_with_demo_user();

    let player = repo.get_by_username("demo").expect("demo player should exist");
    assert_eq!(player.id, 1);
    assert_eq!(player.password_hash, "password");
    assert!(repo.get_by_username("missing").is_none());
}

#[test]
fn mock_compliance_never_excludes() {
    let compliance = MockComplianceService;

    assert!(!compliance.is_excluded(0));
    assert!(!compliance.is_excluded(1));
    assert!(!compliance.is_excluded(u64::MAX));
}

#[test]
fn noop_observability_accepts_events() {
    let mut observability = NoopObservability::new();

    observability.emit(AuthBusinessEvent::LoginSucceeded {
        account_id: 1,
        username: "demo".to_string(),
    });
}
