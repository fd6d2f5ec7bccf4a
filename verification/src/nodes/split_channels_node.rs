//! The split-channels node: plays one channel of its source on every channel.
use vstd::prelude::*;

verus! {

/// Reads every sample of `source` from the single channel `channel`, so that
/// one side of a stereo source is heard on both sides.
#[derive(Clone, Debug)]
pub struct SplitChannels<I> {
    pub source: I,
    pub channel: u8,
}

impl<I> SplitChannels<I> {
    /// A node that plays channel `channel` of `source` on every channel.
    pub fn new(source: I, channel: u8) -> (r: Self)
        ensures
            r.source == source,
            r.channel == channel,
    {
        Self { source, channel }
    }
}

} // verus!
