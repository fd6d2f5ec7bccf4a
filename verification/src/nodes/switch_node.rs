//! The switch node: a control source chooses between two sources.
use vstd::prelude::*;

verus! {

/// Plays `source1` while `switch` is above zero and `source2` otherwise.
#[derive(Clone, Debug)]
pub struct Switch<I, I2, I3> {
    pub source1: I,
    pub source2: I2,
    pub switch: I3,
}

impl<I, I2, I3> Switch<I, I2, I3> {
    /// A switch between `source1` and `source2` driven by `switch`.
    pub fn new(source1: I, source2: I2, switch: I3) -> (r: Self)
        ensures
            r.source1 == source1,
            r.source2 == source2,
            r.switch == switch,
    {
        Self { source1, source2, switch }
    }
}

} // verus!
