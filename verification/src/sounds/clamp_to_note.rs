//! A source that moves a frequency to the nearest note.
use vstd::prelude::*;

verus! {

/// Replaces every sample of `source`, read as a frequency, by the frequency of the nearest note.
#[derive(Clone, Debug)]
pub struct ClampToNote<I> {
    pub source: I,
}

impl<I> ClampToNote<I> {
    /// A node over `source`.
    pub fn new(source: I) -> (r: Self)
        ensures
            r.source == source,
    {
        Self { source }
    }
}

} // verus!
