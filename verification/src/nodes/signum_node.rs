//! The signum node: every sample becomes its sign.
use vstd::prelude::*;

verus! {

/// Turns the samples of `source` into their sign: 1 above zero, -1 below.
#[derive(Clone, Debug)]
pub struct Signum<I> {
    pub source: I,
}

impl<I> Signum<I> {
    /// A signum node over `source`.
    pub fn new(source: I) -> (r: Self)
        ensures
            r.source == source,
    {
        Self { source }
    }
}

} // verus!
