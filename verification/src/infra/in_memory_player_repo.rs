//! In-memory player store used by the player login flow.

use vstd::prelude::*;

use crate::app::player_login::PlayerRepository;
use crate::domain::player::Player;
use crate::text::same_text;

verus! {

pub struct InMemoryPlayerRepository {
    players: Vec<Player>,
}

impl View for InMemoryPlayerRepository {
    type V = Seq<Player>;

    /// The stored players, in order.
    closed spec fn view(&self) -> Seq<Player> {
        self.players@
    }
}

impl InMemoryPlayerRepository {
    /// A repository holding the single demo player: id 1, "demo", password "password",
    /// unlocked.
    pub fn new_with_demo_user() -> (repository: Self)
        ensures
            repository@.len() == 1,
            repository@[0].id == 1,
            repository@[0].username@ == "demo"@,
            repository@[0].password_hash@ == "password"@,
            !repository@[0].is_locked,
    {
        let demo = Player::new(1, "demo", "password", false);
        let mut players = Vec::new();
        players.push(demo);
        InMemoryPlayerRepository { players }
    }
}

/// Whether `i` is the first position in `players` holding a player named `username`.
pub open spec fn first_named(players: Seq<Player>, username: Seq<char>, i: int) -> bool {
    &&& 0 <= i < players.len()
    &&& players[i].username@ == username
    &&& forall|j: int| 0 <= j < i ==> (#[trigger] players[j]).username@ != username
}

impl PlayerRepository for InMemoryPlayerRepository {
    /// The first stored player with the given username.
    open spec fn player_named(&self, username: Seq<char>) -> Option<Player> {
        if exists|i: int| first_named(self@, username, i) {
            Some(self@[choose|i: int| first_named(self@, username, i)])
        } else {
            None
        }
    }

    /// The first stored player with the given username.
    fn get_by_username(&self, username: &str) -> (player: Option<Player>) {
        let mut i: usize = 0;
        while i < self.players.len()
            invariant
                i <= self.players@.len(),
                forall|j: int| 0 <= j < i ==> (#[trigger] self.players@[j]).username@ != username@,
            decreases self.players@.len() - i,
        {
            if same_text(self.players[i].username.as_str(), username) {
                let found = self.players[i].duplicate();
                proof {
                    assert(first_named(self@, username@, i as int));
                    let k = choose|k: int| first_named(self@, username@, k);
                    if k < i {
                        assert(self.players@[k].username@ != username@);
                    }
                    if i < k {
                        assert(self@[i as int].username@ != username@);
                    }
                }
                return Some(found);
            }
            i = i + 1;
        }
        assert(!exists|k: int| first_named(self@, username@, k));
        None
    }
}

} // verus!
