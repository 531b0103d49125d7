//! Front end for a small bracket-sigil scripting language: a lexer that turns
//! source text into a located token sequence, and a recursive-descent parser
//! that builds a typed abstract syntax tree from that sequence. Which bracket
//! character opens a construct selects the grammar rule, so expressions `(..)`
//! and conditions `<..>` are told apart syntactically. Every token and node
//! carries the source span it was built from, and both stages fail fast with a
//! structured, located error.

pub mod ast;
pub mod error;
pub mod grammar;
pub mod lexer;
pub mod parser;
pub mod position;
pub mod token;
