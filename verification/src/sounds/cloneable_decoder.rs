//! A decoded audio file, played back from the wave table it was decoded into.
use vstd::prelude::*;

verus! {

/// An audio file held as the wave table oscillator its samples were decoded
/// into; it plays whatever that oscillator plays.
#[derive(Clone, Debug)]
pub struct CloneableDecoder<W> {
    pub wavetable: W,
}

} // verus!
