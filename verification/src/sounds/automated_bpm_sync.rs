//! A shape played once per note length, the length chosen by a source.
use vstd::prelude::*;
use crate::sound_graph::note::{NoteSpeed, NoteSpeedType};

verus! {

/// The `choice`-th note length of the family `kind`; a quarter note when the
/// family has no such length.
pub fn selected_note_speed(kind: &NoteSpeedType, choice: usize) -> (r: NoteSpeed)
    ensures
        choice < kind.speeds().len() ==> r == kind.speeds()[choice as int],
        choice >= kind.speeds().len() ==> r == NoteSpeed::Quarter,
{
    let speeds = kind.get_beats_type();
    if choice < speeds.len() {
        speeds[choice]
    } else {
        NoteSpeed::Quarter
    }
}

} // verus!
