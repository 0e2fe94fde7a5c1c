use vstd::prelude::*;

verus! {

/// Performs compliance checks required by the login use case.
pub trait ComplianceService {
    /// Whether the player is currently excluded.
    spec fn excluded(&self, player_id: u64) -> bool;

    /// Returns whether the player is currently excluded.
    fn is_excluded(&self, player_id: u64) -> (excluded: bool)
        ensures
            excluded == self.excluded(player_id),
    ;
}

} // verus!
