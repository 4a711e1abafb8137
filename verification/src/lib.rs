//! The syntax tree of a TOML document, kept with every piece of whitespace,
//! every comment and every newline of the text it was read from, so that
//! rendering a tree gives that text back.

pub mod ast;
pub mod text;
pub mod types;
