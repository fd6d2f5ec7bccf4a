//! The remainder of one source divided by another.
use vstd::prelude::*;

verus! {

/// Each sample of `source` taken modulo the current sample of `mod_by`.
#[derive(Clone, Debug)]
pub struct AutomatedModRaw<I1, I2> {
    pub source: I1,
    pub mod_by: I2,
}

impl<I1, I2> AutomatedModRaw<I1, I2> {
    /// `source` modulo `mod_by`.
    pub fn new(source: I1, mod_by: I2) -> (r: Self)
        ensures
            r.source == source,
            r.mod_by == mod_by,
    {
        Self { source, mod_by }
    }
}

} // verus!
