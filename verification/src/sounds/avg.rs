//! A moving average over the last samples of a source.
use vstd::prelude::*;
use std::collections::VecDeque;

verus! {

/// Adds `sample` to the window of recent samples, dropping the oldest one
/// once the window holds more than `size` samples.
pub fn push_to_window<T>(window: &mut VecDeque<T>, size: usize, sample: T)
    requires
        old(window)@.len() < usize::MAX,
    ensures
        old(window)@.len() + 1 > size ==> final(window)@ == old(window)@.push(sample).drop_first(),
        old(window)@.len() + 1 <= size ==> final(window)@ == old(window)@.push(sample),
{
    window.push_back(sample);
    if window.len() > size {
        window.pop_front();
    }
}

/// A window that starts empty and is fed by `push_to_window` never holds
/// more than `size` samples (or one, when `size` is zero).
pub proof fn lemma_window_stays_bounded<T>(before: Seq<T>, size: nat, sample: T)
    requires
        before.len() <= size || (size == 0 && before.len() == 0),
    ensures
        ({
            let pushed = before.push(sample);
            let after = if pushed.len() > size { pushed.drop_first() } else { pushed };
            after.len() <= size && (after.len() == size || after.len() == before.len() + 1)
        }),
{
}

} // verus!
