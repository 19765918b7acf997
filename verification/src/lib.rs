//! A source-text renderer for a small expression-oriented language.
//!
//! The crate takes an already-parsed syntax tree — or a sequential source of
//! parsed statements — and produces canonical, indented source text.  The
//! rendering functions carry contracts that pin the produced text down
//! exactly, character for character, against the specification functions in
//! [`text`].

pub mod ast;
pub mod digits;
pub mod text;
pub mod render;
pub mod source;
pub mod props;
