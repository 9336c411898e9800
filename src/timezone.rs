//! The four broadcast time zones a scheduled game lists its start time in.
use vstd::prelude::*;

verus! {

#[derive(Clone, Copy, Debug, PartialEq, Eq, Structural)]
pub enum TimezoneIndex {
    Pacific,
    Mountain,
    Central,
    Eastern,
}

impl TimezoneIndex {
    /// Where this zone's start time stands among the times a scheduled game lists.
    pub open spec fn slot_spec(self) -> nat {
        match self {
            TimezoneIndex::Pacific => 0,
            TimezoneIndex::Mountain => 1,
            TimezoneIndex::Central => 2,
            TimezoneIndex::Eastern => 3,
        }
    }

    pub fn slot(&self) -> (r: usize)
        ensures
            r == self.slot_spec(),
    {
        match self {
            TimezoneIndex::Pacific => 0,
            TimezoneIndex::Mountain => 1,
            TimezoneIndex::Central => 2,
            TimezoneIndex::Eastern => 3,
        }
    }
}

} // verus!
