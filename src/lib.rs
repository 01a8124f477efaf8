//! A lexical scanner for a small procedural language: a character stream becomes
//! an ordered sequence of typed, position-annotated tokens.
pub mod lexer;
