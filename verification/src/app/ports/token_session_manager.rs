use vstd::prelude::*;

verus! {

/// Identity resolved from a validated bearer token.
#[derive(Debug, Clone, PartialEq, Eq)]
pub struct SessionUser {
    pub account_id: u64,
    pub username: String,
}

/// Validates and revokes bearer tokens for session-style controls.
pub trait TokenSessionManager {
    /// Whether `token` is structurally valid and backed by an active session. An
    /// implementation that does not define it leaves it unspecified.
    closed spec fn active(&self, token: Seq<char>) -> bool {
        vstd::pervasive::arbitrary()
    }

    /// The identity behind `token`, if it is backed by an active session. An implementation
    /// that does not define it leaves it unspecified.
    closed spec fn user(&self, token: Seq<char>) -> Option<SessionUser> {
        vstd::pervasive::arbitrary()
    }

    /// Returns `true` when the token is structurally valid and still active.
    fn is_active(&self, token: &str) -> (active: bool)
        ensures
            active == self.active(token@),
            active == self.user(token@) is Some,
    ;

    /// Returns the authenticated identity for an active token.
    fn current_user(&self, token: &str) -> (user: Option<SessionUser>)
        ensures
            user == self.user(token@),
    ;

    /// Revokes a valid token so future checks can reject it.
    fn revoke(&mut self, token: &str)
        ensures
            !final(self).active(token@),
            final(self).user(token@) is None,
    ;
}

} // verus!
