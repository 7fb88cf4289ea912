//! Front end for a small statically-typed language: a scanner that turns
//! source text into located tokens, and a recursive-descent parser that turns
//! a token stream into a type-expression tree.
//!
//! Offsets count code points. Every executable function carries a contract
//! stated over `Seq<char>` models of the source buffer.

pub mod cursor;
pub mod location;
pub mod text;
pub mod token;
pub mod tree;
