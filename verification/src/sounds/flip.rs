//! A source that negates every sample.
use vstd::prelude::*;

verus! {

/// Negates every sample of `source`.
#[derive(Clone, Debug)]
pub struct Flip<I> {
    pub source: I,
}

impl<I> Flip<I> {
    /// A node over `source`.
    pub fn new(source: I) -> (r: Self)
        ensures
            r.source == source,
    {
        Self { source }
    }
}

} // verus!
