//! The unison node: several detuned, phase-shifted copies of a source.
use vstd::prelude::*;

verus! {

/// The sum of several voices, scaled by the square root of their number.
#[derive(Clone, Debug)]
pub struct MixVec<V> {
    pub vec: Vec<V>,
}

impl<V> MixVec<V> {
    /// A mix of the voices in `vec`.
    pub fn new(vec: Vec<V>) -> (r: Self)
        ensures
            r.vec@ == vec@,
    {
        Self { vec }
    }
}

/// A unison: the mix of its voices.
#[derive(Clone, Debug)]
pub struct UnisonVoice<V> {
    pub source: MixVec<V>,
}

} // verus!
