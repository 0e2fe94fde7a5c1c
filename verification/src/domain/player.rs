//! The player record used by the player login flow.

use vstd::prelude::*;
use vstd::string::*;

verus! {

#[derive(Debug, Clone)]
pub struct Player {
    pub id: u64,
    pub username: String,
    pub password_hash: String,
    pub is_locked: bool,
}

impl Player {
    pub fn new(id: u64, username: &str, password_hash: &str, is_locked: bool) -> (player: Player)
        ensures
            player.id == id,
            player.username@ == username@,
            player.password_hash@ == password_hash@,
            player.is_locked == is_locked,
    {
        Player {
            id,
            username: String::from_str(username),
            password_hash: String::from_str(password_hash),
            is_locked,
        }
    }

    /// A field-by-field copy of the player.
    pub fn duplicate(&self) -> (copy: Player)
        ensures
            copy == *self,
    {
        Player {
            id: self.id,
            username: self.username.clone(),
            password_hash: self.password_hash.clone(),
            is_locked: self.is_locked,
        }
    }
}

} // verus!
