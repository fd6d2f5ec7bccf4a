//! Core data, tables and decision logic of a node-based sound synthesiser.
//!
//! Sample arithmetic (which is floating point) lives outside this crate; what
//! is kept here is everything that can be stated over integers, enums and
//! strings: note and rhythm tables, name conversions, the source queue, the
//! sequencing state machine of `After`, and the integer bookkeeping of the
//! delay, hold and rule-switching effects.

pub mod text;
pub mod sound_graph;
pub mod sounds;
pub mod sound_map;
pub mod nodes;
