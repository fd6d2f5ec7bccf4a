//! The kinds of value that flow between the ports of sound nodes.
use vstd::prelude::*;

verus! {

/// The kind of value a node port carries (`Nothing` for a port that carries
/// none).
#[derive(Copy, Clone, PartialEq, Eq, Structural, Debug)]
pub enum DataType {
    Nothing,
    AudioSource,
    Float,
    Duration,
    AudioFile,
    MidiFile,
    Graph,
    Bool,
    Dropdown,
}

/// An output port of a node: its name and the kind of value it produces.
#[derive(Clone, Debug)]
pub struct Output {
    pub name: String,
    pub data_type: DataType,
}

} // verus!
