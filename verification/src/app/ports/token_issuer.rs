use vstd::prelude::*;

use crate::domain::auth_account::AuthAccount;

verus! {

/// Issues a login token for a successfully authenticated account.
pub trait TokenIssuer {
    /// The tokens issued so far, in order, each with the account it was issued for. An
    /// implementation that does not define it leaves it unspecified.
    closed spec fn issued(&self) -> Seq<(AuthAccount, Seq<char>)> {
        vstd::pervasive::arbitrary()
    }

    /// Issues a token for `account`. What the token holds (a signed, time-stamped value) is
    /// the implementation's; the issuer records it against the account.
    fn issue_for(&mut self, account: &AuthAccount) -> (token: String)
        ensures
            final(self).issued() == old(self).issued().push((*account, token@)),
    ;
}

} // verus!
