use vstd::prelude::*;

use crate::domain::auth_account::AuthAccount;

verus! {

/// The account stored under `username`, if any.
pub open spec fn account_under(accounts: Map<Seq<char>, AuthAccount>, username: Seq<char>) -> Option<
    AuthAccount,
> {
    if accounts.contains_key(username) {
        Some(accounts[username])
    } else {
        None
    }
}

/// The stored accounts after `saved`, if any, is saved under its username.
pub open spec fn accounts_after_save(
    accounts: Map<Seq<char>, AuthAccount>,
    saved: Option<AuthAccount>,
) -> Map<Seq<char>, AuthAccount> {
    match saved {
        Some(account) => accounts.insert(account.username@, account),
        None => accounts,
    }
}

/// Whether `account` is bound to the reset token `token`.
pub open spec fn bound_to_token(account: AuthAccount, token: Seq<char>) -> bool {
    account.password_reset_token matches Some(t) && t@ == token
}

/// Whether `found` is an answer to a lookup by reset token `token` among `accounts`: a stored
/// account bound to the token, or `None` when no stored account is.
pub open spec fn found_by_reset_token(
    accounts: Map<Seq<char>, AuthAccount>,
    token: Seq<char>,
    found: Option<AuthAccount>,
) -> bool {
    match found {
        Some(a) => accounts.contains_key(a.username@) && accounts[a.username@] == a
            && bound_to_token(a, token),
        None => forall|u: Seq<char>|
            #[trigger] accounts.contains_key(u) ==> !bound_to_token(accounts[u], token),
    }
}

/// Reads and stores the auth accounts needed by the use cases.
pub trait AuthAccountRepository {
    /// The stored accounts, keyed by username. An implementation that does not define it
    /// leaves it unspecified.
    closed spec fn accounts(&self) -> Map<Seq<char>, AuthAccount> {
        vstd::pervasive::arbitrary()
    }

    /// Returns the auth account for the supplied username, if one exists.
    fn get_by_username(&self, username: &str) -> (account: Option<AuthAccount>)
        ensures
            account == account_under(self.accounts(), username@),
    ;

    /// Returns the auth account currently bound to the supplied reset token, if any; when
    /// several are, which one is left open.
    fn get_by_reset_token(&self, token: &str) -> (account: Option<AuthAccount>)
        ensures
            found_by_reset_token(self.accounts(), token@, account),
    ;

    /// Persists auth-account state mutations: the account is stored under its username.
    fn save(&mut self, account: AuthAccount)
        ensures
            final(self).accounts() == old(self).accounts().insert(account.username@, account),
    ;
}

} // verus!
