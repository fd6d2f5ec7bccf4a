//! The source that plays the audio a host application feeds in.
use vstd::prelude::*;

verus! {

/// The input channel of the host application.
#[derive(Clone, Debug)]
pub struct DawInputChannel {}

impl DawInputChannel {
    /// The host's input channel.
    pub fn new() -> (r: Self) {
        Self {}
    }
}

} // verus!
