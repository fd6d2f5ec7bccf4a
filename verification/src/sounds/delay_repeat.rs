//! Echoes: a delay line read back at evenly spaced taps.
use vstd::prelude::*;
use std::collections::VecDeque;

verus! {

/// Pushes `sample` in at the front of the delay line and lets the oldest
/// entry fall off the back, so the line keeps its length (an empty line
/// just takes the sample).
pub fn shift_in<T>(line: &mut VecDeque<T>, sample: T)
    ensures
        old(line)@.len() > 0 ==> final(line)@ == seq![sample] + old(line)@.drop_last(),
        old(line)@.len() == 0 ==> final(line)@ == seq![sample],
{
    line.pop_back();
    line.push_front(sample);
}

/// Where tap `point` of `points` reads a delay line of `line_len` entries,
/// of which the last hundred are never read: tap 0 reads the newest entry
/// and each further tap reads one equal step deeper.
pub fn delay_repeat_tap_index(line_len: usize, points: usize, point: usize) -> (r: usize)
    requires
        line_len >= 100,
        point < points,
    ensures
        r == (if point == 0 { 0 } else { ((line_len - 100) as int / points as int) * point }),
        r <= line_len - 100,
        r < line_len,
{
    let total_size = line_len - 100;
    if point == 0 {
        0
    } else {
        let step = total_size / points;
        proof {
            lemma_step_times_point(total_size as int, points as int, point as int);
        }
        step * point
    }
}

/// Taking `point` steps of `total / points` never goes past `total` when
/// `point` is below `points`.
pub proof fn lemma_step_times_point(total: int, points: int, point: int)
    requires
        0 <= total,
        0 <= point < points,
    ensures
        0 <= (total / points) * point <= total,
{
    assert(0 <= (total / points) * point <= (total / points) * points) by (nonlinear_arith)
        requires
            0 <= total,
            0 <= point < points,
    ;
    assert((total / points) * points <= total) by (nonlinear_arith)
        requires
            0 <= total,
            0 < points,
    ;
}

} // verus!
