//! Sound nodes that hold other sources and reshape their samples.
pub mod signum_node;
pub mod split_channels_node;
pub mod switch_node;
pub mod unison_node;
pub mod weird_node;
