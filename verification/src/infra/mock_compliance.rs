use vstd::prelude::*;

use crate::app::ports::ComplianceService;

verus! {

/// Compliance adapter that never excludes any auth account.
pub struct MockComplianceService;

impl ComplianceService for MockComplianceService {
    open spec fn excluded(&self, player_id: u64) -> bool {
        false
    }

    fn is_excluded(&self, _player_id: u64) -> (excluded: bool)
        ensures
            !excluded,
    {
        false
    }
}

} // verus!
