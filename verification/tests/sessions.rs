use login_base::domain::auth_account::AuthAccount;
use login_base::infra::in_memory_session_store::{InMemorySessionStore, SessionStatus};
use login_base::infra::session_claims::{
    active_session_user, claims_for_session, open_session, SessionClaims,
};

const NOW: u64 = 1_700_000_000;

#[test]
fn sessions_are_numbered_from_one() {
    let mut store = InMemorySessionStore::new();
    let account = AuthAccount::new(42, "demo", "password", false);

    let first = store.create_session(&account, 3600, NOW);
    let second = store.create_session(&account, 3600, NOW + 1);

    assert_eq!(first.session_id, "session-1");
    assert_eq!(second.session_id, "session-2");
    assert_eq!(store.issued_sessions(), 2);
}

#[test]
fn created_session_is_active_until_its_ttl() {
    let mut store = InMemorySessionStore::new();
    let account = AuthAccount::new(42, "demo", "password", false);

    let session = store.create_session(&account, 3600, NOW);

    assert_eq!(session.account_id, 42);
    assert_eq!(session.username, "demo");
    assert_eq!(session.status, SessionStatus::Active);
    assert_eq!(session.created_at, NOW);
    assert_eq!(session.expires_at, NOW + 3600);
    assert_eq!(session.revoked_at, None);

    let stored = store.get("session-1").expect("session should be stored");
    assert_eq!(stored.account_id, 42);
    assert_eq!(stored.status, SessionStatus::Active);
    assert!(store.get("session-2").is_none());
}

#[test]
fn revoke_marks_the_session_revoked() {
    let mut store = InMemorySessionStore::new();
    let account = AuthAccount::new(1, "demo", "password", false);
    store.create_session(&account, 3600, NOW);

    assert!(store.revoke("session-1", NOW + 10));
    assert!(!store.revoke("session-9", NOW + 10));

    let stored = store.get("session-1").unwrap();
    assert_eq!(stored.status, SessionStatus::Revoked);
    assert_eq!(stored.revoked_at, Some(NOW + 10));
}

#[test]
fn issued_claims_resolve_to_the_session_user() {
    let mut store = InMemorySessionStore::new();
    let account = AuthAccount::new(42, "demo", "password", false);
    let session = store.create_session(&account, 3600, NOW);

    let claims = claims_for_session(&session);
    assert_eq!(claims.sid, "session-1");
    assert_eq!(claims.sub, "demo");
    assert_eq!(claims.account_id, 42);
    assert_eq!(claims.exp, NOW + 3600);

    let user = active_session_user(&store, &claims).expect("active session should resolve");
    assert_eq!(user.account_id, 42);
    assert_eq!(user.username, "demo");
}

#[test]
fn revoked_session_resolves_to_nobody() {
    let mut store = InMemorySessionStore::new();
    let account = AuthAccount::new(1, "demo", "password", false);
    let session = store.create_session(&account, 3600, NOW);
    let claims = claims_for_session(&session);

    store.revoke(&claims.sid, NOW + 5);

    assert!(active_session_user(&store, &claims).is_none());
}

#[test]
fn claims_must_match_the_session() {
    let mut store = InMemorySessionStore::new();
    let account = AuthAccount::new(1, "demo", "password", false);
    let session = store.create_session(&account, 3600, NOW);

    let mut other_account = claims_for_session(&session);
    other_account.account_id = 2;
    assert!(active_session_user(&store, &other_account).is_none());

    let mut other_user = claims_for_session(&session);
    other_user.sub = "demo-2".to_string();
    assert!(active_session_user(&store, &other_user).is_none());

    let mut outliving = claims_for_session(&session);
    outliving.exp = session.expires_at + 1;
    assert!(active_session_user(&store, &outliving).is_none());

    let mut shorter = claims_for_session(&session);
    shorter.exp = session.expires_at - 1;
    assert!(active_session_user(&store, &shorter).is_some());

    let unknown = SessionClaims {
        sid: "session-7".to_string(),
        sub: "demo".to_string(),
        account_id: 1,
        exp: NOW,
    };
    assert!(active_session_user(&store, &unknown).is_none());
}

#[test]
fn opened_session_gives_claims_for_the_new_session() {
    let mut store = InMemorySessionStore::new();
    let account = AuthAccount::new(42, "demo", "password", false);

    let claims = open_session(&mut store, &account, 3600, NOW).expect("session should open");

    assert_eq!(claims.sid, "session-1");
    assert_eq!(claims.sub, "demo");
    assert_eq!(claims.account_id, 42);
    assert_eq!(claims.exp, NOW + 3600);
    assert_eq!(store.get("session-1").map(|s| s.status), Some(SessionStatus::Active));
}

#[test]
fn session_that_would_expire_past_the_clock_limit_is_not_opened() {
    let mut store = InMemorySessionStore::new();
    let account = AuthAccount::new(42, "demo", "password", false);

    assert!(open_session(&mut store, &account, 3600, u64::MAX - 10).is_none());
    assert_eq!(store.issued_sessions(), 0);
    assert!(store.get("session-1").is_none());
}
