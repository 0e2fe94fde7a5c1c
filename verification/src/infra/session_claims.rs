//! The claims a session token carries, and the session check a presented token must pass.

use vstd::prelude::*;

use crate::app::ports::SessionUser;
use crate::domain::auth_account::AuthAccount;
use super::in_memory_session_store::{
    session_id_text, InMemorySessionStore, SessionRecord, SessionStatus,
};

verus! {

/// Claims carried by a session token.
#[derive(Debug, Clone)]
pub struct SessionClaims {
    /// Id of the session the token belongs to.
    pub sid: String,
    /// Username of the authenticated account.
    pub sub: String,
    pub account_id: u64,
    /// Expiry, in Unix seconds.
    pub exp: u64,
}

/// Claims for a token issued for `session`.
pub fn claims_for_session(session: &SessionRecord) -> (claims: SessionClaims)
    ensures
        claims == session_claims_of(*session),
{
    SessionClaims {
        sid: session.session_id.clone(),
        sub: session.username.clone(),
        account_id: session.account_id,
        exp: session.expires_at,
    }
}

/// Opens a session for `account`, created at `now` and expiring `ttl_seconds` later, and
/// returns the claims of a token for it; `None`, with the store unchanged, when the session
/// counter is exhausted or the expiry does not fit in a `u64`.
pub fn open_session(
    store: &mut InMemorySessionStore,
    account: &AuthAccount,
    ttl_seconds: u64,
    now: u64,
) -> (claims: Option<SessionClaims>)
    ensures
        match claims {
            None => {
                &&& old(store).issued() == u64::MAX || now > u64::MAX - ttl_seconds
                &&& final(store)@ == old(store)@
                &&& final(store).issued() == old(store).issued()
            },
            Some(c) => {
                let session = final(store)@[c.sid@];
                &&& old(store).issued() < u64::MAX && now <= u64::MAX - ttl_seconds
                &&& c.sid@ == session_id_text((old(store).issued() + 1) as u64)
                &&& !old(store)@.contains_key(c.sid@)
                &&& final(store)@ == old(store)@.insert(c.sid@, session)
                &&& final(store).issued() == old(store).issued() + 1
                &&& session.account_id == account.id
                &&& session.username == account.username
                &&& session.status == SessionStatus::Active
                &&& session.created_at == now
                &&& session.expires_at == now + ttl_seconds
                &&& session.revoked_at is None
                &&& c == session_claims_of(session)
            },
        },
{
    if store.issued_sessions() == u64::MAX || now > u64::MAX - ttl_seconds {
        return None;
    }
    let session = store.create_session(account, ttl_seconds, now);
    Some(claims_for_session(&session))
}

/// Whether `session` backs a token with `claims`: it is active, belongs to the same account
/// and username, and does not expire before the token does.
pub open spec fn session_backs(session: SessionRecord, claims: SessionClaims) -> bool {
    &&& session.status == SessionStatus::Active
    &&& session.account_id == claims.account_id
    &&& session.username@ == claims.sub@
    &&& claims.exp <= session.expires_at
}

/// The identity a token with `claims` resolves to against the sessions in `sessions`.
pub open spec fn session_user_for(
    sessions: Map<Seq<char>, SessionRecord>,
    claims: SessionClaims,
) -> Option<(u64, Seq<char>)> {
    if sessions.contains_key(claims.sid@) && session_backs(sessions[claims.sid@], claims) {
        Some((sessions[claims.sid@].account_id, sessions[claims.sid@].username@))
    } else {
        None
    }
}

/// Resolves a decoded token's claims to the identity of its session, if the session backs it.
pub fn active_session_user(store: &InMemorySessionStore, claims: &SessionClaims) -> (user: Option<
    SessionUser,
>)
    ensures
        match session_user_for(store@, *claims) {
            Some((account_id, username)) => user matches Some(u) && u.account_id == account_id
                && u.username@ == username,
            None => user is None,
        },
{
    let session = match store.get(claims.sid.as_str()) {
        Some(session) => session,
        None => return None,
    };
    let active = match session.status {
        SessionStatus::Active => true,
        SessionStatus::Revoked => false,
    };
    if !active {
        return None;
    }
    if session.account_id != claims.account_id || !(session.username == claims.sub) {
        return None;
    }
    if session.expires_at < claims.exp {
        return None;
    }
    Some(SessionUser { account_id: session.account_id, username: session.username })
}

/// The claims of a token issued for `session`.
pub open spec fn session_claims_of(session: SessionRecord) -> SessionClaims {
    SessionClaims {
        sid: session.session_id,
        sub: session.username,
        account_id: session.account_id,
        exp: session.expires_at,
    }
}

/// A token issued for a session just stored resolves to that session's identity while the
/// session stays as stored.
pub proof fn lemma_issued_token_resolves_to_its_session(
    sessions: Map<Seq<char>, SessionRecord>,
    session: SessionRecord,
)
    requires
        session.status == SessionStatus::Active,
    ensures
        session_user_for(sessions.insert(session.session_id@, session), session_claims_of(session))
            == Some((session.account_id, session.username@)),
{
}

/// Once the session a token names is revoked, the token resolves to no identity.
pub proof fn lemma_revoked_session_backs_no_token(
    sessions: Map<Seq<char>, SessionRecord>,
    now: u64,
    claims: SessionClaims,
)
    requires
        sessions.contains_key(claims.sid@),
    ensures
        session_user_for(
            sessions.insert(claims.sid@, sessions[claims.sid@].revoked(now)),
            claims,
        ) is None,
{
}

/// A token naming a session the store does not hold resolves to no identity.
pub proof fn lemma_unknown_session_backs_no_token(
    sessions: Map<Seq<char>, SessionRecord>,
    claims: SessionClaims,
)
    requires
        !sessions.contains_key(claims.sid@),
    ensures
        session_user_for(sessions, claims) is None,
{
}

} // verus!
