//! The scanner's parts: character classes, the classification tables, the
//! abstract scan model, the executable scanner and the laws proved about it.
pub mod chars;
pub mod token;
pub mod model;
pub mod lexer;
pub mod laws;
