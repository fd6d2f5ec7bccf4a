//! A linear map from one range to another, with every bound a source.
use vstd::prelude::*;

verus! {

/// Maps each sample of `source` from the range between `start_min` and
/// `start_max` onto the range between `end_min` and `end_max`.
#[derive(Clone, Debug)]
pub struct AutomatedTranslateWave<I1, I2, I3, I4, I5> {
    pub source: I1,
    pub start_min: I2,
    pub start_max: I3,
    pub end_min: I4,
    pub end_max: I5,
}

impl<I1, I2, I3, I4, I5> AutomatedTranslateWave<I1, I2, I3, I4, I5> {
    /// A map of `source` from `start_min..start_max` onto `end_min..end_max`.
    pub fn new(source: I1, start_min: I2, start_max: I3, end_min: I4, end_max: I5) -> (r: Self)
        ensures
            r.source == source,
            r.start_min == start_min,
            r.start_max == start_max,
            r.end_min == end_min,
            r.end_max == end_max,
    {
        Self { source, start_max, start_min, end_max, end_min }
    }
}

} // verus!
