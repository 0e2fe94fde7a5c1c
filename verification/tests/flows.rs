use std::sync::{Arc, Mutex};

use login_base::app::login::{
    AuthenticateUseCase, AuthenticationService, ChangePasswordError, ChangePasswordRequest,
    ChangePasswordService, ChangePasswordUseCase, ForgotPasswordRequest, LoginError,
    LoginRequest, PasswordResetService, PasswordResetUseCase, ResetPasswordError,
    ResetPasswordRequest,
};
use login_base::app::player_login::{
    ComplianceService as PlayerCompliance, LoginRequest as PlayerLoginRequest,
    LoginService as PlayerLoginService,
};
use login_base::app::ports::{AuthAccountRepository, AuthBusinessEvent, Observability};
use login_base::infra::in_memory_auth_account_repo::InMemoryAuthAccountRepository;
use login_base::infra::in_memory_player_repo::InMemoryPlayerRepository;
use login_base::infra::mock_compliance::MockComplianceService;

#[derive(Clone, Default)]
struct RecordingObservability {
    events: Arc<Mutex<Vec<AuthBusinessEvent>>>,
}

impl Observability for RecordingObservability {
    fn emit(&mut self, event: AuthBusinessEvent) {
        self.events.lock().unwrap().push(event);
    }
}

// Shares one in-memory repository between a service and the test.
#[derive(Clone)]
struct SharedRepository {
    inner: Arc<Mutex<InMemoryAuthAccountRepository>>,
}

impl SharedRepository {
    fn with_demo_user() -> Self {
        SharedRepository {
            inner: Arc::new(Mutex::new(InMemoryAuthAccountRepository::new_with_demo_user())),
        }
    }
}

impl AuthAccountRepository for SharedRepository {
    fn get_by_username(&self, username: &str) -> Option<login_base::domain::auth_account::AuthAccount> {
        self.inner.lock().unwrap().get_by_username(username)
    }

    fn get_by_reset_token(&self, token: &str) -> Option<login_base::domain::auth_account::AuthAccount> {
        self.inner.lock().unwrap().get_by_reset_token(token)
    }

    fn save(&mut self, account: login_base::domain::auth_account::AuthAccount) {
        self.inner.lock().unwrap().save(account)
    }
}

const NOW: u64 = 1_700_000_000;

fn login(password: &str) -> LoginRequest {
    LoginRequest {
        username: "demo".to_string(),
        password: password.to_string(),
    }
}

#[test]
fn three_consecutive_wrong_passwords_lock_the_demo_account() {
    let repo = SharedRepository::with_demo_user();
    let mut service = AuthenticationService::new(
        repo.clone(),
        MockComplianceService,
        RecordingObservability::default(),
    );

    assert_eq!(
        service.authenticate(login("wrong")).err(),
        Some(LoginError::InvalidCredentials)
    );
    assert_eq!(
        service.authenticate(login("wrong")).err(),
        Some(LoginError::InvalidCredentials)
    );
    assert_eq!(
        service.authenticate(login("wrong")).err(),
        Some(LoginError::AccountLocked)
    );
    assert_eq!(
        service.authenticate(login("password")).err(),
        Some(LoginError::AccountLocked)
    );
    let stored = repo.get_by_username("demo").unwrap();
    assert!(stored.is_locked);
    assert_eq!(stored.failed_login_attempts, 3);
}

struct ExcludingCompliance;

impl login_base::app::ports::ComplianceService for ExcludingCompliance {
    fn excluded(&self, _account_id: u64) -> bool {
        true
    }

    fn is_excluded(&self, _account_id: u64) -> bool {
        true
    }
}

#[test]
fn an_excluded_account_keeps_its_failures() {
    let repo = SharedRepository::with_demo_user();
    let mut service = AuthenticationService::new(
        repo.clone(),
        ExcludingCompliance,
        RecordingObservability::default(),
    );

    assert!(service.authenticate(login("wrong")).is_err());
    assert!(service.authenticate(login("wrong")).is_err());
    assert_eq!(
        service.authenticate(login("password")).err(),
        Some(LoginError::SelfExcluded)
    );
    let stored = repo.get_by_username("demo").unwrap();
    assert_eq!(stored.failed_login_attempts, 2);
    assert!(!stored.is_locked);
}

#[test]
fn a_successful_login_clears_earlier_failures() {
    let repo = SharedRepository::with_demo_user();
    let mut service = AuthenticationService::new(
        repo.clone(),
        MockComplianceService,
        RecordingObservability::default(),
    );

    assert!(service.authenticate(login("wrong")).is_err());
    assert!(service.authenticate(login("wrong")).is_err());
    assert!(service.authenticate(login("password")).is_ok());
    assert_eq!(repo.get_by_username("demo").unwrap().failed_login_attempts, 0);
    assert!(service.authenticate(login("wrong")).is_err());
    assert!(service.authenticate(login("password")).is_ok());
}

#[test]
fn changed_password_replaces_the_old_one() {
    let repo = SharedRepository::with_demo_user();
    let mut change = ChangePasswordService::new(repo.clone(), RecordingObservability::default());
    let mut authenticate = AuthenticationService::new(
        repo.clone(),
        MockComplianceService,
        RecordingObservability::default(),
    );

    assert!(change
        .change_password(ChangePasswordRequest {
            username: "demo".to_string(),
            current_password: "password".to_string(),
            new_password: "new-password".to_string(),
        })
        .is_ok());

    assert_eq!(
        authenticate.authenticate(login("password")).err(),
        Some(LoginError::InvalidCredentials)
    );
    assert!(authenticate.authenticate(login("new-password")).is_ok());
}

#[test]
fn unknown_user_cannot_change_password() {
    let repo = SharedRepository::with_demo_user();
    let mut change = ChangePasswordService::new(repo.clone(), RecordingObservability::default());

    let result = change.change_password(ChangePasswordRequest {
        username: "missing".to_string(),
        current_password: "password".to_string(),
        new_password: "new-password".to_string(),
    });

    assert_eq!(result, Err(ChangePasswordError::InvalidCredentials));
}

#[test]
fn reset_token_has_the_documented_form_and_changes_per_request() {
    let repo = SharedRepository::with_demo_user();
    let mut reset = PasswordResetService::new(repo.clone(), RecordingObservability::default());

    let first = reset.request_reset(
        ForgotPasswordRequest {
            username: "demo".to_string(),
        },
        NOW,
    );
    let second = reset.request_reset(
        ForgotPasswordRequest {
            username: "demo".to_string(),
        },
        NOW,
    );

    assert_eq!(first.reset_token, "reset-1700000000-1");
    assert_eq!(second.reset_token, "reset-1700000000-2");
    let stored = repo.get_by_username("demo").unwrap();
    assert_eq!(stored.password_reset_token.as_deref(), Some("reset-1700000000-2"));
    assert_eq!(stored.password_reset_expires_at, Some(NOW + 900));
}

#[test]
fn reset_token_works_once_within_fifteen_minutes() {
    let repo = SharedRepository::with_demo_user();
    let mut reset = PasswordResetService::new(repo.clone(), RecordingObservability::default());
    let token = reset
        .request_reset(
            ForgotPasswordRequest {
                username: "demo".to_string(),
            },
            NOW,
        )
        .reset_token;

    let request = |password: &str| ResetPasswordRequest {
        token: token.clone(),
        new_password: password.to_string(),
    };
    assert_eq!(
        reset.reset_password(request("password"), NOW + 900).err(),
        Some(ResetPasswordError::PasswordReuseNotAllowed)
    );
    assert!(reset.reset_password(request("fresh"), NOW + 900).is_ok());
    assert_eq!(
        reset.reset_password(request("fresher"), NOW + 900).err(),
        Some(ResetPasswordError::InvalidToken)
    );
    assert_eq!(repo.get_by_username("demo").unwrap().password_hash, "fresh");
}

#[test]
fn reset_token_expires_after_fifteen_minutes() {
    let repo = SharedRepository::with_demo_user();
    let mut reset = PasswordResetService::new(repo.clone(), RecordingObservability::default());
    let token = reset
        .request_reset(
            ForgotPasswordRequest {
                username: "demo".to_string(),
            },
            NOW,
        )
        .reset_token;

    let result = reset.reset_password(
        ResetPasswordRequest {
            token,
            new_password: "fresh".to_string(),
        },
        NOW + 901,
    );

    assert_eq!(result.err(), Some(ResetPasswordError::InvalidToken));
    assert_eq!(repo.get_by_username("demo").unwrap().password_hash, "password");
}

#[test]
fn reset_unlocks_a_locked_account() {
    let repo = SharedRepository::with_demo_user();
    let mut authenticate = AuthenticationService::new(
        repo.clone(),
        MockComplianceService,
        RecordingObservability::default(),
    );
    for _ in 0..3 {
        let _ = authenticate.authenticate(login("wrong"));
    }
    let mut reset = PasswordResetService::new(repo.clone(), RecordingObservability::default());
    let token = reset
        .request_reset(
            ForgotPasswordRequest {
                username: "demo".to_string(),
            },
            NOW,
        )
        .reset_token;

    assert!(reset
        .reset_password(
            ResetPasswordRequest {
                token,
                new_password: "fresh".to_string(),
            },
            NOW + 1,
        )
        .is_ok());

    let stored = repo.get_by_username("demo").unwrap();
    assert!(!stored.is_locked);
    assert_eq!(stored.failed_login_attempts, 0);
    assert!(authenticate.authenticate(login("fresh")).is_ok());
}

struct FixedCompliance(bool);

impl PlayerCompliance for FixedCompliance {
    fn excluded(&self, _player_id: u64) -> bool {
        self.0
    }

    fn is_excluded(&self, _player_id: u64) -> bool {
        self.0
    }
}

fn player_login(password: &str, username: &str, excluded: bool) -> (bool, String) {
    let service = PlayerLoginService::new(
        InMemoryPlayerRepository::new_with_demo_user(),
        FixedCompliance(excluded),
    );
    let response = service.login(PlayerLoginRequest {
        username: username.to_string(),
        password: password.to_string(),
    });
    (response.success, response.message)
}

#[test]
fn player_login_answers() {
    assert_eq!(player_login("password", "demo", false), (true, "OK".to_string()));
    assert_eq!(
        player_login("password", "demo", true),
        (false, "Self-excluded".to_string())
    );
    assert_eq!(
        player_login("wrong", "demo", false),
        (false, "Invalid username or password".to_string())
    );
    assert_eq!(
        player_login("password", "missing", false),
        (false, "Invalid username or password".to_string())
    );
}
