//! The syntax tree and its rendering back to text.

pub mod compare;
pub mod laws;
pub mod render;
pub mod structs;
pub mod text_laws;
