//! Sample-and-hold: a source is sampled, then held for a number of samples.
use vstd::prelude::*;

verus! {

/// Counts one more sample since the last capture. Once the count reaches
/// `threshold`, the count starts over and the current sample is to be
/// captured (the second part of the result).
pub fn hold_tick(counter: u32, threshold: u32) -> (r: (u32, bool))
    requires
        counter < u32::MAX,
    ensures
        counter + 1 >= threshold ==> r == (0u32, true),
        counter + 1 < threshold ==> r == ((counter + 1) as u32, false),
        r.0 < u32::MAX,
{
    let counted = counter + 1;
    if counted >= threshold {
        (0, true)
    } else {
        (counted, false)
    }
}

} // verus!
