//! The auth account record and the state changes the use cases make to it.

use vstd::prelude::*;
use vstd::string::*;

verus! {

/// An auth account used by the login flow.
#[derive(Debug, Clone)]
pub struct AuthAccount {
    /// Stable identifier used by downstream checks.
    pub id: u64,
    /// Login name submitted by the client.
    pub username: String,
    /// Stored password value used by the current plain-text comparison.
    pub password_hash: String,
    /// Indicates whether the account is locked internally.
    pub is_locked: bool,
    /// Counts consecutive password failures used for lockout.
    pub failed_login_attempts: u32,
    /// Active password reset token when a reset has been requested.
    pub password_reset_token: Option<String>,
    /// Expiry timestamp for the current password reset token.
    pub password_reset_expires_at: Option<u64>,
}

/// The failure count after one more failure: one more, held at `u32::MAX`.
pub open spec fn next_failure_count(count: u32) -> u32 {
    if count < u32::MAX {
        (count + 1) as u32
    } else {
        count
    }
}

impl AuthAccount {
    /// The account after one more password failure, locked once `max_attempts` is reached; a
    /// count already at `u32::MAX` stays there.
    pub open spec fn after_failed_login(self, max_attempts: u32) -> AuthAccount {
        AuthAccount {
            failed_login_attempts: next_failure_count(self.failed_login_attempts),
            is_locked: self.is_locked || next_failure_count(self.failed_login_attempts)
                >= max_attempts,
            ..self
        }
    }

    /// The account with its password-failure count cleared.
    pub open spec fn with_failures_cleared(self) -> AuthAccount {
        AuthAccount { failed_login_attempts: 0, ..self }
    }

    /// The account with no password reset pending.
    pub open spec fn without_password_reset(self) -> AuthAccount {
        AuthAccount { password_reset_token: None, password_reset_expires_at: None, ..self }
    }

    /// The account after its password is replaced: unlocked, failures cleared, no reset pending.
    pub open spec fn with_password(self, password_hash: String) -> AuthAccount {
        AuthAccount {
            password_hash,
            is_locked: false,
            failed_login_attempts: 0,
            password_reset_token: None,
            password_reset_expires_at: None,
            ..self
        }
    }

    /// The account with a pending password reset.
    pub open spec fn with_password_reset(self, token: String, expires_at: u64) -> AuthAccount {
        AuthAccount {
            password_reset_token: Some(token),
            password_reset_expires_at: Some(expires_at),
            ..self
        }
    }

    /// Whether `token` is the pending reset token and `now` is not past its expiry.
    pub open spec fn accepts_reset(self, token: Seq<char>, now: u64) -> bool {
        &&& self.password_reset_token matches Some(t) && t@ == token
        &&& self.password_reset_expires_at matches Some(expires_at) && now <= expires_at
    }

    /// Creates an auth account record for the current in-memory store.
    pub fn new(id: u64, username: &str, password_hash: &str, is_locked: bool) -> (account:
        AuthAccount)
        ensures
            account.id == id,
            account.username@ == username@,
            account.password_hash@ == password_hash@,
            account.is_locked == is_locked,
            account.failed_login_attempts == 0,
            account.password_reset_token is None,
            account.password_reset_expires_at is None,
    {
        AuthAccount {
            id,
            username: String::from_str(username),
            password_hash: String::from_str(password_hash),
            is_locked,
            failed_login_attempts: 0,
            password_reset_token: None,
            password_reset_expires_at: None,
        }
    }

    /// Records a password failure and locks the account once the threshold is hit.
    pub fn record_failed_login_attempt(&mut self, max_attempts: u32)
        requires
            old(self).failed_login_attempts < u32::MAX,
        ensures
            final(self).failed_login_attempts == old(self).failed_login_attempts + 1,
            *final(self) == old(self).after_failed_login(max_attempts),
    {
        self.failed_login_attempts = self.failed_login_attempts + 1;
        if self.failed_login_attempts >= max_attempts {
            self.is_locked = true;
        }
    }

    /// Clears password-failure state after successful credential proof.
    pub fn clear_failed_login_attempts(&mut self)
        ensures
            *final(self) == old(self).with_failures_cleared(),
    {
        self.failed_login_attempts = 0;
    }

    /// Updates the stored password and removes any reset token state.
    pub fn set_password(&mut self, password_hash: String)
        ensures
            *final(self) == old(self).with_password(password_hash),
            final(self).id == old(self).id,
            final(self).username == old(self).username,
            final(self).password_hash == password_hash,
            !final(self).is_locked,
            final(self).failed_login_attempts == 0,
            final(self).password_reset_token is None,
            final(self).password_reset_expires_at is None,
    {
        self.password_hash = password_hash;
        self.is_locked = false;
        self.clear_failed_login_attempts();
        self.clear_password_reset();
    }

    /// Stores a password reset token and expiry.
    pub fn issue_password_reset(&mut self, token: String, expires_at: u64)
        ensures
            *final(self) == old(self).with_password_reset(token, expires_at),
            final(self).id == old(self).id,
            final(self).username == old(self).username,
            final(self).password_hash == old(self).password_hash,
            final(self).is_locked == old(self).is_locked,
            final(self).failed_login_attempts == old(self).failed_login_attempts,
            final(self).password_reset_token == Some(token),
            final(self).password_reset_expires_at == Some(expires_at),
    {
        self.password_reset_token = Some(token);
        self.password_reset_expires_at = Some(expires_at);
    }

    /// Clears the current password reset token.
    pub fn clear_password_reset(&mut self)
        ensures
            *final(self) == old(self).without_password_reset(),
    {
        self.password_reset_token = None;
        self.password_reset_expires_at = None;
    }

    /// Returns `true` when the supplied reset token matches the current active token.
    pub fn can_reset_with(&self, token: &str, now: u64) -> (r: bool)
        ensures
            r == self.accepts_reset(token@, now),
    {
        let token_matches = match &self.password_reset_token {
            Some(t) => crate::text::same_text(t.as_str(), token),
            None => false,
        };
        token_matches && match self.password_reset_expires_at {
            Some(expires_at) => now <= expires_at,
            None => false,
        }
    }

    /// A field-by-field copy of the account.
    pub fn duplicate(&self) -> (copy: AuthAccount)
        ensures
            copy == *self,
    {
        AuthAccount {
            id: self.id,
            username: self.username.clone(),
            password_hash: self.password_hash.clone(),
            is_locked: self.is_locked,
            failed_login_attempts: self.failed_login_attempts,
            password_reset_token: match &self.password_reset_token {
                Some(t) => Some(t.clone()),
                None => None,
            },
            password_reset_expires_at: self.password_reset_expires_at,
        }
    }
}

/// Replacing the password keeps the account's identity: the id and username are those of the
/// account, the password is the new one, and the account is left unlocked with no failures and
/// no pending reset.
pub proof fn lemma_new_password_keeps_identity(account: AuthAccount, password_hash: String)
    ensures
        account.with_password(password_hash).id == account.id,
        account.with_password(password_hash).username == account.username,
        account.with_password(password_hash).password_hash == password_hash,
        !account.with_password(password_hash).is_locked,
        account.with_password(password_hash).failed_login_attempts == 0,
        account.with_password(password_hash).password_reset_token is None,
        account.with_password(password_hash).password_reset_expires_at is None,
{
}

/// Binding a reset token changes only the pending token and its expiry: the id, username,
/// password, lock flag and failure count stay as they were.
pub proof fn lemma_reset_binding_changes_only_the_token(
    account: AuthAccount,
    token: String,
    expires_at: u64,
)
    ensures
        account.with_password_reset(token, expires_at).id == account.id,
        account.with_password_reset(token, expires_at).username == account.username,
        account.with_password_reset(token, expires_at).password_hash == account.password_hash,
        account.with_password_reset(token, expires_at).is_locked == account.is_locked,
        account.with_password_reset(token, expires_at).failed_login_attempts
            == account.failed_login_attempts,
        account.with_password_reset(token, expires_at).password_reset_token == Some(token),
        account.with_password_reset(token, expires_at).password_reset_expires_at == Some(
            expires_at,
        ),
{
}

} // verus!
