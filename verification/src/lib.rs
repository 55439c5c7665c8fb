//! Front end of the Gobble Query Language (GQL): a tokenizer, a recursive
//! descent parser with explicit precedence and a depth bound, the typed
//! abstract syntax tree it produces, a structural validator that runs before
//! any statement is returned, and a canonical renderer. A small compression
//! facade over named byte codecs and a columnar schema model round out the
//! library's collaborator contracts.

pub mod ast;
pub mod codec;
pub mod columnar;
pub mod error;
pub mod lexer;
pub mod model;
pub mod parser;
pub mod render;
pub mod text;
pub mod token;
pub mod validate;
