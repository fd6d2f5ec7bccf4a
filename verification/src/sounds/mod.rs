//! The building blocks that sound nodes are made of.
pub mod eq;
pub mod flip;
pub mod abs;
pub mod clamp_to_note;
pub mod automated_clamp;
pub mod automated_mod_raw;
pub mod automated_translate;
pub mod daw_input;
pub mod after;
pub mod delay_repeat;
pub mod automated_delay_repeat;
pub mod avg;
pub mod automated_hold;
pub mod automated_bpm_sync;
pub mod cloneable_decoder;
