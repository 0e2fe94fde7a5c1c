//! In-memory auth account store, keyed by username.

use vstd::prelude::*;
use vstd::string::*;

use crate::app::ports::{account_under, bound_to_token, AuthAccountRepository};
use crate::domain::auth_account::AuthAccount;
use crate::text::{
    decimal_string, decimal_text, lemma_decimal_text_injective, lemma_decimal_text_len, same_text,
};

verus! {

/// In-memory auth account repository used by the current executable and tests.
pub struct InMemoryAuthAccountRepository {
    auth_accounts: Vec<AuthAccount>,
}

/// The username of demo account `id`: "demo" for the first, "demo-{id}" for the others.
pub open spec fn demo_username(id: u64) -> Seq<char> {
    if id == 1 {
        "demo"@
    } else {
        "demo-"@ + decimal_text(id as nat)
    }
}

/// Whether `account` is demo account `id`: unlocked, password "password", nothing pending.
pub open spec fn is_demo_account(account: AuthAccount, id: u64) -> bool {
    &&& account.id == id
    &&& account.username@ == demo_username(id)
    &&& account.password_hash@ == "password"@
    &&& !account.is_locked
    &&& account.failed_login_attempts == 0
    &&& account.password_reset_token is None
    &&& account.password_reset_expires_at is None
}

/// Whether `accounts` maps exactly the usernames of demo accounts 1 through `count` to
/// those accounts.
pub open spec fn demo_accounts(accounts: Map<Seq<char>, AuthAccount>, count: u64) -> bool {
    &&& forall|u: Seq<char>|
        #[trigger] accounts.contains_key(u) <==> exists|id: u64|
            1 <= id <= count && #[trigger] demo_username(id) == u
    &&& forall|id: u64|
        1 <= id <= count ==> #[trigger] is_demo_account(accounts[demo_username(id)], id)
}

/// Demo accounts have pairwise different usernames.
proof fn lemma_demo_usernames_distinct(id: u64)
    requires
        id >= 1,
    ensures
        forall|k: u64| 1 <= k < id ==> demo_username(k) != #[trigger] demo_username(id),
{
    reveal_strlit("demo");
    reveal_strlit("demo-");
    assert forall|k: u64| 1 <= k < id implies demo_username(k) != #[trigger] demo_username(id) by {
        lemma_decimal_text_len(id as nat);
        lemma_decimal_text_len(k as nat);
        assert("demo"@.len() == 4);
        assert("demo-"@.len() == 5);
        assert(demo_username(id).len() >= 6);
        if k > 1 && demo_username(k) == demo_username(id) {
            let prefix = "demo-"@;
            assert(demo_username(k).skip(5) =~= decimal_text(k as nat));
            assert(demo_username(id).skip(5) =~= decimal_text(id as nat));
            lemma_decimal_text_injective(k as nat, id as nat);
        }
    }
}

impl InMemoryAuthAccountRepository {
    #[verifier::type_invariant]
    closed spec fn usernames_unique(&self) -> bool {
        forall|i: int, j: int|
            0 <= i < self.auth_accounts@.len() && 0 <= j < self.auth_accounts@.len() && i != j
                ==> #[trigger] self.auth_accounts@[i].username@
                != #[trigger] self.auth_accounts@[j].username@
    }

    closed spec fn holds(self, i: int, username: Seq<char>) -> bool {
        0 <= i < self.auth_accounts@.len() && self.auth_accounts@[i].username@ == username
    }

    proof fn lemma_lookup(self, i: int)
        requires
            self.usernames_unique(),
            0 <= i < self.auth_accounts@.len(),
        ensures
            self@.contains_key(self.auth_accounts@[i].username@),
            self@[self.auth_accounts@[i].username@] == self.auth_accounts@[i],
    {
        let u = self.auth_accounts@[i].username@;
        assert(self.holds(i, u));
        let j = choose|j: int| self.holds(j, u);
        assert(j == i);
    }

    /// Index of the account stored under `username`, if any.
    fn position_of(&self, username: &str) -> (position: Option<usize>)
        ensures
            match position {
                Some(i) => i < self.auth_accounts@.len() && self.auth_accounts@[i as int].username@
                    == username@,
                None => forall|i: int|
                    0 <= i < self.auth_accounts@.len() ==> self.auth_accounts@[i].username@
                        != username@,
            },
    {
        let mut i: usize = 0;
        while i < self.auth_accounts.len()
            invariant
                i <= self.auth_accounts@.len(),
                forall|k: int| 0 <= k < i ==> self.auth_accounts@[k].username@ != username@,
            decreases self.auth_accounts@.len() - i,
        {
            if same_text(self.auth_accounts[i].username.as_str(), username) {
                return Some(i);
            }
            i = i + 1;
        }
        None
    }

    /// Creates a repository seeded with a single demo user.
    pub fn new_with_demo_user() -> (repository: Self)
        ensures
            demo_accounts(repository@, 1),
    {
        Self::new_with_demo_users(1)
    }

    /// Creates a repository seeded with `count` demo users for local and perf flows.
    pub fn new_with_demo_users(count: u64) -> (repository: Self)
        ensures
            demo_accounts(repository@, count),
    {
        let mut repository = InMemoryAuthAccountRepository { auth_accounts: Vec::new() };
        assert(repository@ =~= Map::<Seq<char>, AuthAccount>::empty());
        let mut id: u64 = 0;
        while id < count
            invariant
                id <= count,
                demo_accounts(repository@, id),
            decreases count - id,
        {
            id = id + 1;
            let username = if id == 1 {
                String::from_str("demo")
            } else {
                let mut name = String::from_str("demo-");
                let digits = decimal_string(id);
                name.append(digits.as_str());
                name
            };
            let account = AuthAccount::new(id, username.as_str(), "password", false);
            let ghost before = repository@;
            repository.save(account);
            proof {
                lemma_demo_usernames_distinct(id);
                assert forall|u: Seq<char>|
                    #[trigger] repository@.contains_key(u) <==> exists|k: u64|
                        1 <= k <= id && #[trigger] demo_username(k) == u by {
                    if repository@.contains_key(u) && u != demo_username(id) {
                        assert(before.contains_key(u));
                        let k = choose|k: u64| 1 <= k <= id - 1 && #[trigger] demo_username(k) == u;
                        assert(1 <= k <= id && demo_username(k) == u);
                    }
                    if exists|k: u64| 1 <= k <= id && #[trigger] demo_username(k) == u {
                        let k = choose|k: u64| 1 <= k <= id && #[trigger] demo_username(k) == u;
                        if k < id {
                            assert(before.contains_key(u));
                        }
                    }
                }
                assert forall|k: u64| 1 <= k <= id implies #[trigger] is_demo_account(
                    repository@[demo_username(k)],
                    k,
                ) by {
                    if k < id {
                        assert(demo_username(k) != demo_username(id));
                    }
                }
            }
        }
        repository
    }
}

impl View for InMemoryAuthAccountRepository {
    type V = Map<Seq<char>, AuthAccount>;

    /// The stored accounts, keyed by username.
    closed spec fn view(&self) -> Map<Seq<char>, AuthAccount> {
        Map::new(
            |u: Seq<char>| exists|i: int| self.holds(i, u),
            |u: Seq<char>| self.auth_accounts@[choose|i: int| self.holds(i, u)],
        )
    }
}

impl AuthAccountRepository for InMemoryAuthAccountRepository {
    /// The stored accounts, keyed by username.
    open spec fn accounts(&self) -> Map<Seq<char>, AuthAccount> {
        self@
    }

    fn get_by_username(&self, username: &str) -> (account: Option<AuthAccount>)
        ensures
            account == (if self@.contains_key(username@) {
                Some(self@[username@])
            } else {
                None::<AuthAccount>
            }),
    {
        proof { use_type_invariant(self); }
        match self.position_of(username) {
            Some(i) => {
                proof { self.lemma_lookup(i as int); }
                Some(self.auth_accounts[i].duplicate())
            },
            None => {
                assert(!self@.contains_key(username@));
                None
            },
        }
    }

    /// Returns an account bound to `token`; when several are, which one is left open.
    fn get_by_reset_token(&self, token: &str) -> (account: Option<AuthAccount>)
        ensures
            match account {
                Some(a) => self@.contains_key(a.username@) && self@[a.username@] == a
                    && bound_to_token(a, token@),
                None => forall|u: Seq<char>|
                    #[trigger] self@.contains_key(u) ==> !bound_to_token(self@[u], token@),
            },
    {
        proof { use_type_invariant(self); }
        let mut i: usize = 0;
        while i < self.auth_accounts.len()
            invariant
                i <= self.auth_accounts@.len(),
                forall|k: int|
                    0 <= k < i ==> !bound_to_token(#[trigger] self.auth_accounts@[k], token@),
            decreases self.auth_accounts@.len() - i,
        {
            let matches = match &self.auth_accounts[i].password_reset_token {
                Some(t) => same_text(t.as_str(), token),
                None => false,
            };
            if matches {
                proof {
                    use_type_invariant(self);
                    self.lemma_lookup(i as int);
                }
                return Some(self.auth_accounts[i].duplicate());
            }
            i = i + 1;
        }
        proof {
            assert forall|u: Seq<char>| #[trigger] self@.contains_key(u) implies !bound_to_token(
                self@[u],
                token@,
            ) by {
                let k = choose|k: int| self.holds(k, u);
                self.lemma_lookup(k);
            }
        }
        None
    }

    fn save(&mut self, account: AuthAccount)
        ensures
            final(self)@ == old(self)@.insert(account.username@, account),
    {
        proof { use_type_invariant(&*self); }
        let ghost before = *self;
        let position = self.position_of(account.username.as_str());
        let mut accounts = Vec::new();
        std::mem::swap(&mut accounts, &mut self.auth_accounts);
        let ghost key = account.username@;
        let ghost slot: int = match position {
            Some(i) => i as int,
            None => before.auth_accounts@.len() as int,
        };
        match position {
            Some(i) => {
                accounts.set(i, account);
            },
            None => {
                accounts.push(account);
            },
        }
        self.auth_accounts = accounts;
        proof {
            assert forall|u: Seq<char>| #[trigger]
                self@.contains_key(u) == before@.insert(key, account).contains_key(u) by {
                if before@.contains_key(u) && u != key {
                    let k = choose|k: int| before.holds(k, u);
                    assert(self.holds(k, u));
                }
                if u == key {
                    assert(self.holds(slot, u));
                }
                if self@.contains_key(u) && u != key {
                    let k = choose|k: int| self.holds(k, u);
                    assert(before.holds(k, u));
                }
            }
            assert forall|u: Seq<char>| #[trigger] self@.contains_key(u) implies self@[u]
                == before@.insert(key, account)[u] by {
                let k = choose|k: int| self.holds(k, u);
                self.lemma_lookup(k);
                if u != key {
                    assert(before.holds(k, u));
                    before.lemma_lookup(k);
                }
            }
            assert(self@ =~= before@.insert(key, account));
        }
    }
}

/// Reading an account back by username after saving it gives the saved account, and saving
/// leaves every other username as it was (`save` and `get_by_username` of every repository
/// state this over `accounts()`).
pub proof fn lemma_saved_account_reads_back(
    accounts: Map<Seq<char>, AuthAccount>,
    account: AuthAccount,
    other: Seq<char>,
)
    requires
        other != account.username@,
    ensures
        accounts.insert(account.username@, account).contains_key(account.username@),
        accounts.insert(account.username@, account)[account.username@] == account,
        account_under(accounts.insert(account.username@, account), account.username@) == Some(
            account,
        ),
        account_under(accounts.insert(account.username@, account), other) == account_under(
            accounts,
            other,
        ),
        accounts.insert(account.username@, account).contains_key(other) == accounts.contains_key(
            other,
        ),
        accounts.contains_key(other) ==> accounts.insert(account.username@, account)[other]
            == accounts[other],
{
}

} // verus!
