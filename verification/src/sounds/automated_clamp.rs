//! A clamp whose bounds are themselves sources.
use vstd::prelude::*;

verus! {

/// Keeps each sample of `source` between the current samples of `min` and
/// `max`, whichever of the two is lower serving as the lower bound.
#[derive(Clone, Debug)]
pub struct AutomatedClamp<I1, I2, I3> {
    pub source: I1,
    pub min: I2,
    pub max: I3,
}

impl<I1, I2, I3> AutomatedClamp<I1, I2, I3> {
    /// A clamp of `source` between `min` and `max`.
    pub fn new(source: I1, min: I2, max: I3) -> (r: Self)
        ensures
            r.source == source,
            r.min == min,
            r.max == max,
    {
        Self { source, max, min }
    }
}

} // verus!
