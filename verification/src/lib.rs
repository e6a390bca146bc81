//! Lexical analysis for a small compiler front end: a character-by-character
//! tokenizer with one character of lookahead, literal recognition with
//! escape-sequence validation, multi-character operator disambiguation,
//! statement-terminator coalescing, and position-aware lexical errors.

pub mod codegen;
pub mod error;
pub mod laws;
pub mod lex;
pub mod parse;
pub mod render;
pub mod scan;
pub mod token;
