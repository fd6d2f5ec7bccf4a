//! Echoes whose delay length and number of taps are themselves sources.
use vstd::prelude::*;
use std::collections::VecDeque;
use crate::sounds::delay_repeat::{lemma_step_times_point, shift_in};

verus! {

/// Length of the delay line, in samples, for a delay of `whole_seconds`
/// seconds (at least one) at `sample_rate` samples per second.
pub fn delay_line_len(whole_seconds: usize, sample_rate: usize) -> (r: usize)
    requires
        (if whole_seconds > 0 { whole_seconds } else { 1 }) * sample_rate <= usize::MAX,
    ensures
        r == (if whole_seconds > 0 { whole_seconds } else { 1 }) * sample_rate,
{
    let seconds = if whole_seconds > 0 { whole_seconds } else { 1 };
    seconds * sample_rate
}

/// Brings the delay line to `len` entries (cutting the oldest ones, or
/// filling up with `silence`), then pushes `sample` in at the front and lets
/// the oldest entry fall off, unless the line is empty.
pub fn feed_delay_line<T: Clone>(line: &mut VecDeque<T>, len: usize, silence: T, sample: T)
    ensures
        final(line)@.len() == len,
        len > 0 ==> final(line)@[0] == sample,
        forall|i: int|
            1 <= i < len && i <= old(line)@.len() ==> #[trigger] final(line)@[i] == old(line)@[i - 1],
        forall|i: int|
            1 <= i < len && i > old(line)@.len() ==> cloned::<T>(silence, #[trigger] final(line)@[i]),
{
    if line.len() != len {
        line.resize(len, silence);
    }
    let ghost sized = line@;
    if line.len() > 0 {
        shift_in(line, sample);
        assert forall|i: int| 1 <= i < len implies #[trigger] line@[i] == sized[i - 1] by {}
    }
}

/// Where tap `point` of `points` reads a delay line of `total_size` entries:
/// tap 0 reads the newest entry and each further tap reads one equal step
/// deeper, never past the oldest entry.
pub fn tap_index(total_size: usize, points: usize, point: usize) -> (r: usize)
    requires
        total_size >= 1,
        point < points,
    ensures
        r == (if point == 0 { 0 } else {
            let deep = (total_size as int / points as int) * point;
            if deep < total_size - 1 { deep } else { total_size - 1 }
        }),
        r < total_size,
{
    if point == 0 {
        0
    } else {
        proof {
            lemma_step_times_point(total_size as int, points as int, point as int);
        }
        let deep = (total_size / points) * point;
        if deep < total_size - 1 {
            deep
        } else {
            total_size - 1
        }
    }
}

/// How many taps to read: the requested number, but at least one.
pub fn tap_count(requested: usize) -> (r: usize)
    ensures
        r == (if requested > 0 { requested } else { 1 }),
        r >= 1,
{
    if requested > 0 {
        requested
    } else {
        1
    }
}

} // verus!
