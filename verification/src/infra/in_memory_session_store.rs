//! In-memory session storage: session records keyed by session id.

use vstd::prelude::*;
use vstd::string::*;

use crate::domain::auth_account::AuthAccount;
use crate::text::{decimal_string, decimal_text, lemma_decimal_text_injective, same_text};

verus! {

#[derive(Debug, Clone, Copy, PartialEq, Eq)]
pub enum SessionStatus {
    Active,
    Revoked,
}

#[derive(Debug, Clone)]
pub struct SessionRecord {
    pub session_id: String,
    pub account_id: u64,
    pub username: String,
    pub status: SessionStatus,
    pub created_at: u64,
    pub expires_at: u64,
    pub revoked_at: Option<u64>,
}

impl SessionRecord {
    /// The record after revocation at `now`.
    pub open spec fn revoked(self, now: u64) -> SessionRecord {
        SessionRecord { status: SessionStatus::Revoked, revoked_at: Some(now), ..self }
    }

    /// A field-by-field copy of the record.
    pub fn duplicate(&self) -> (copy: SessionRecord)
        ensures
            copy == *self,
    {
        SessionRecord {
            session_id: self.session_id.clone(),
            account_id: self.account_id,
            username: self.username.clone(),
            status: self.status,
            created_at: self.created_at,
            expires_at: self.expires_at,
            revoked_at: self.revoked_at,
        }
    }
}

/// The id of the `n`th session created by a store: "session-{n}".
pub open spec fn session_id_text(n: u64) -> Seq<char> {
    "session-"@ + decimal_text(n as nat)
}

spec fn holds_at(sessions: Seq<SessionRecord>, i: int, id: Seq<char>) -> bool {
    0 <= i < sessions.len() && sessions[i].session_id@ == id
}

spec fn records_by_id(sessions: Seq<SessionRecord>) -> Map<Seq<char>, SessionRecord> {
    Map::new(
        |id: Seq<char>| exists|i: int| holds_at(sessions, i, id),
        |id: Seq<char>| sessions[choose|i: int| holds_at(sessions, i, id)],
    )
}

/// In-memory session storage used by the current auth boundary.
pub struct InMemorySessionStore {
    sessions: Vec<SessionRecord>,
    next_session_id: u64,
}

impl View for InMemorySessionStore {
    type V = Map<Seq<char>, SessionRecord>;

    /// The stored sessions, keyed by session id.
    closed spec fn view(&self) -> Map<Seq<char>, SessionRecord> {
        records_by_id(self.sessions@)
    }
}

/// Whether `id` is the id of one of the first `count` sessions a store creates.
pub open spec fn issued_id(id: Seq<char>, count: u64) -> bool {
    exists|k: u64| 1 <= k <= count && id == session_id_text(k)
}

/// Whether every session in `sessions` has the id of one of the first `count` created.
spec fn ids_issued(sessions: Seq<SessionRecord>, count: u64) -> bool {
    forall|i: int| 0 <= i < sessions.len() ==> issued_id(#[trigger] sessions[i].session_id@, count)
}

proof fn lemma_issued_id_grows(id: Seq<char>, count: u64, more: u64)
    requires
        issued_id(id, count),
        count <= more,
    ensures
        issued_id(id, more),
{
    let k = choose|k: u64| 1 <= k <= count && id == session_id_text(k);
    assert(1 <= k <= more && id == session_id_text(k));
}

impl InMemorySessionStore {
    #[verifier::type_invariant]
    closed spec fn session_ids_unique(&self) -> bool {
        &&& forall|i: int, j: int|
            0 <= i < self.sessions@.len() && 0 <= j < self.sessions@.len() && i != j
                ==> #[trigger] self.sessions@[i].session_id@
                != #[trigger] self.sessions@[j].session_id@
        &&& ids_issued(self.sessions@, self.next_session_id)
    }

    /// How many sessions this store has created.
    pub closed spec fn issued(&self) -> u64 {
        self.next_session_id
    }

    proof fn lemma_lookup(self, i: int)
        requires
            self.session_ids_unique(),
            0 <= i < self.sessions@.len(),
        ensures
            self@.contains_key(self.sessions@[i].session_id@),
            self@[self.sessions@[i].session_id@] == self.sessions@[i],
    {
        let id = self.sessions@[i].session_id@;
        assert(holds_at(self.sessions@, i, id));
        let j = choose|j: int| holds_at(self.sessions@, j, id);
        assert(j == i);
    }

    proof fn lemma_ids_issued(self)
        requires
            self.session_ids_unique(),
        ensures
            forall|id: Seq<char>|
                #[trigger] self@.contains_key(id) ==> self@[id].session_id@ == id && issued_id(
                    id,
                    self.next_session_id,
                ),
    {
        assert forall|id: Seq<char>| #[trigger] self@.contains_key(id) implies self@[id].session_id@
            == id && issued_id(id, self.next_session_id) by {
            let i = choose|i: int| holds_at(self.sessions@, i, id);
            assert(self.sessions@[i].session_id@ == id);
        }
    }

    /// Index of the session with the given id, if any.
    fn position_of(&self, session_id: &str) -> (position: Option<usize>)
        ensures
            match position {
                Some(i) => i < self.sessions@.len() && self.sessions@[i as int].session_id@
                    == session_id@,
                None => forall|i: int|
                    0 <= i < self.sessions@.len() ==> self.sessions@[i].session_id@
                        != session_id@,
            },
    {
        let mut i: usize = 0;
        while i < self.sessions.len()
            invariant
                i <= self.sessions@.len(),
                forall|k: int| 0 <= k < i ==> self.sessions@[k].session_id@ != session_id@,
            decreases self.sessions@.len() - i,
        {
            if same_text(self.sessions[i].session_id.as_str(), session_id) {
                return Some(i);
            }
            i = i + 1;
        }
        None
    }

    /// Stores `record` under its session id, replacing any record with the same id.
    fn insert(&mut self, record: SessionRecord)
        requires
            issued_id(record.session_id@, old(self).issued()),
        ensures
            final(self)@ == old(self)@.insert(record.session_id@, record),
            final(self).issued() == old(self).issued(),
    {
        proof { use_type_invariant(&*self); }
        let ghost before = *self;
        let position = self.position_of(record.session_id.as_str());
        let mut sessions = Vec::new();
        std::mem::swap(&mut sessions, &mut self.sessions);
        let ghost key = record.session_id@;
        let ghost slot: int = match position {
            Some(i) => i as int,
            None => before.sessions@.len() as int,
        };
        match position {
            Some(i) => {
                sessions.set(i, record);
            },
            None => {
                sessions.push(record);
            },
        }
        proof {
            assert forall|i: int| 0 <= i < sessions@.len() implies issued_id(
                #[trigger] sessions@[i].session_id@,
                before.next_session_id,
            ) by {
                if i != slot {
                    assert(sessions@[i] == before.sessions@[i]);
                    assert(before.sessions@[i].session_id@ == sessions@[i].session_id@);
                }
            }
        }
        self.sessions = sessions;
        proof {
            assert forall|u: Seq<char>| #[trigger]
                self@.contains_key(u) == before@.insert(key, record).contains_key(u) by {
                if before@.contains_key(u) && u != key {
                    let k = choose|k: int| holds_at(before.sessions@, k, u);
                    assert(holds_at(self.sessions@, k, u));
                }
                if u == key {
                    assert(holds_at(self.sessions@, slot, u));
                }
                if self@.contains_key(u) && u != key {
                    let k = choose|k: int| holds_at(self.sessions@, k, u);
                    assert(holds_at(before.sessions@, k, u));
                }
            }
            assert forall|u: Seq<char>| #[trigger] self@.contains_key(u) implies self@[u]
                == before@.insert(key, record)[u] by {
                let k = choose|k: int| holds_at(self.sessions@, k, u);
                self.lemma_lookup(k);
                if u != key {
                    assert(holds_at(before.sessions@, k, u));
                    before.lemma_lookup(k);
                }
            }
            assert(self@ =~= before@.insert(key, record));
        }
    }

    /// An empty store that has created no sessions.
    pub fn new() -> (store: Self)
        ensures
            store@ == Map::<Seq<char>, SessionRecord>::empty(),
            store.issued() == 0,
    {
        let store = InMemorySessionStore { sessions: Vec::new(), next_session_id: 0 };
        assert(store@ =~= Map::<Seq<char>, SessionRecord>::empty());
        store
    }

    /// How many sessions this store has created.
    pub fn issued_sessions(&self) -> (count: u64)
        ensures
            count == self.issued(),
    {
        self.next_session_id
    }

    /// Creates and stores an active session for `account`, created at `now` and expiring
    /// `ttl_seconds` later, under the id "session-{n}" where n counts the sessions created.
    pub fn create_session(&mut self, account: &AuthAccount, ttl_seconds: u64, now: u64) -> (session:
        SessionRecord)
        requires
            old(self).issued() < u64::MAX,
            now <= u64::MAX - ttl_seconds,
        ensures
            session.session_id@ == session_id_text((old(self).issued() + 1) as u64),
            session.account_id == account.id,
            session.username == account.username,
            session.status == SessionStatus::Active,
            session.created_at == now,
            session.expires_at == now + ttl_seconds,
            session.revoked_at is None,
            !old(self)@.contains_key(session.session_id@),
            final(self)@ == old(self)@.insert(session.session_id@, session),
            final(self).issued() == old(self).issued() + 1,
    {
        proof {
            use_type_invariant(&*self);
            self.lemma_ids_issued();
        }
        let ghost before = self@;
        let ghost before_sessions = self.sessions@;
        let number = self.next_session_id + 1;
        proof {
            assert forall|i: int| 0 <= i < self.sessions@.len() implies issued_id(
                #[trigger] self.sessions@[i].session_id@,
                number,
            ) by {
                lemma_issued_id_grows(self.sessions@[i].session_id@, self.next_session_id, number);
            }
        }
        self.next_session_id = number;
        assert(self.sessions@ == before_sessions);
        let mut session_id = String::from_str("session-");
        let digits = decimal_string(number);
        session_id.append(digits.as_str());
        proof {
            assert forall|id: Seq<char>| #[trigger] before.contains_key(id) implies id
                != session_id_text(number) by {
                let k = choose|k: u64| 1 <= k <= number - 1 && id == session_id_text(k);
                lemma_session_ids_differ(k, number);
            }
        }
        let session = SessionRecord {
            session_id,
            account_id: account.id,
            username: account.username.clone(),
            status: SessionStatus::Active,
            created_at: now,
            expires_at: now + ttl_seconds,
            revoked_at: None,
        };
        assert(session.session_id@ == session_id_text(number));
        assert(issued_id(session.session_id@, number));
        self.insert(session.duplicate());
        session
    }

    /// The session stored under `session_id`, if any.
    pub fn get(&self, session_id: &str) -> (session: Option<SessionRecord>)
        ensures
            !issued_id(session_id@, self.issued()) ==> session is None,
            session == (if self@.contains_key(session_id@) {
                Some(self@[session_id@])
            } else {
                None::<SessionRecord>
            }),
    {
        proof {
            use_type_invariant(self);
            self.lemma_ids_issued();
        }
        match self.position_of(session_id) {
            Some(i) => {
                proof { self.lemma_lookup(i as int); }
                Some(self.sessions[i].duplicate())
            },
            None => {
                assert(!self@.contains_key(session_id@));
                None
            },
        }
    }

    /// Marks the session revoked at `now`; `false` when no session has that id.
    pub fn revoke(&mut self, session_id: &str, now: u64) -> (found: bool)
        ensures
            found == old(self)@.contains_key(session_id@),
            found ==> final(self)@ == old(self)@.insert(
                session_id@,
                old(self)@[session_id@].revoked(now),
            ),
            !found ==> final(self)@ == old(self)@,
            final(self).issued() == old(self).issued(),
    {
        proof {
            use_type_invariant(&*self);
            self.lemma_ids_issued();
        }
        match self.get(session_id) {
            Some(session) => {
                let mut session = session;
                session.status = SessionStatus::Revoked;
                session.revoked_at = Some(now);
                self.insert(session);
                true
            },
            None => false,
        }
    }
}

/// Sessions created as the `m`th and the `n`th by a store have different ids.
pub proof fn lemma_session_ids_differ(m: u64, n: u64)
    requires
        m != n,
    ensures
        session_id_text(m) != session_id_text(n),
{
    if session_id_text(m) == session_id_text(n) {
        reveal_strlit("session-");
        assert(session_id_text(m).skip(8) =~= decimal_text(m as nat));
        assert(session_id_text(n).skip(8) =~= decimal_text(n as nat));
        lemma_decimal_text_injective(m as nat, n as nat);
    }
}

/// A session stored fresh by `create_session` reads back by `get` as created; after `revoke`
/// it reads back as the same record, revoked at the revocation time.
pub proof fn lemma_created_session_reads_back(
    sessions: Map<Seq<char>, SessionRecord>,
    created: SessionRecord,
    now: u64,
)
    requires
        !sessions.contains_key(created.session_id@),
    ensures
        ({
            let id = created.session_id@;
            let stored = sessions.insert(id, created);
            let revoked = stored.insert(id, stored[id].revoked(now));
            &&& stored.contains_key(id) && stored[id] == created
            &&& revoked.contains_key(id) && revoked[id] == created.revoked(now)
            &&& revoked[id].status == SessionStatus::Revoked
            &&& revoked[id].revoked_at == Some(now)
        }),
{
}

/// Once revoked, a session stays revoked: creating a session (always under a fresh id) and
/// revoking any session leave it revoked.
pub proof fn lemma_revoked_session_stays_revoked(
    sessions: Map<Seq<char>, SessionRecord>,
    id: Seq<char>,
    created: SessionRecord,
    other: Seq<char>,
    now: u64,
)
    requires
        sessions.contains_key(id),
        sessions[id].status == SessionStatus::Revoked,
        !sessions.contains_key(created.session_id@),
        sessions.contains_key(other),
    ensures
        sessions.insert(created.session_id@, created)[id] == sessions[id],
        sessions.insert(other, sessions[other].revoked(now))[id].status == SessionStatus::Revoked,
{
}

} // verus!
