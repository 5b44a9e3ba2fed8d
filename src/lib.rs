//! Recursive-descent parsing of a token stream into a statement tree.
//!
//! Tokens come from a lexer (see [`token`]); [`parser::parse`] turns them
//! into an ordered list of statements, or into a located diagnostic.
//! Every parsing function is verified against the grammar written as spec
//! functions in [`grammar`].

pub mod token;
pub mod ast;
pub mod diagnostic;
pub mod grammar;
pub mod parser;
