//! A source that takes the absolute value of every sample.
use vstd::prelude::*;

verus! {

/// Takes the absolute value of every sample of `source`.
#[derive(Clone, Debug)]
pub struct Abs<I> {
    pub source: I,
}

impl<I> Abs<I> {
    /// A node over `source`.
    pub fn new(source: I) -> (r: Self)
        ensures
            r.source == source,
    {
        Self { source }
    }
}

} // verus!
