//! Notes, rhythms, themes and the types that describe a node's ports.
pub mod note;
pub mod themes;
pub mod graph_types;
pub mod graph;
pub mod evaluate;
pub mod copy_paste_del_helpers;
