//! The error taxonomy of the front end: lexical errors, parse errors,
//! validation errors and the deliberate unsupported-feature report, each
//! carrying the source offset and the expected construct so a caller can
//! render a one-line, position-anchored message. No function of this crate
//! panics or terminates the process on user input.

use vstd::prelude::*;

verus! {

/// An error found while turning query text into tokens. Offsets count
/// characters from the start of the input.
#[derive(Debug, PartialEq)]
pub enum LexError {
    /// A string literal was opened at `offset` and never closed.
    UnterminatedString { offset: usize },
    /// The character at `offset` belongs to no token of the grammar.
    InvalidCharacter { offset: usize },
    /// The numeric literal starting at `offset` runs into letters.
    InvalidNumber { offset: usize },
}

/// An error found while parsing a token stream into a statement.
#[derive(Debug, PartialEq)]
pub enum ParseError {
    /// The token at `offset` is not the `expected` construct; `found` is
    /// the text of the token that stands there.
    UnexpectedToken { offset: usize, expected: String, found: String },
    /// The input ended where the `expected` construct was required;
    /// `offset` is the input length.
    UnexpectedEnd { offset: usize, expected: String },
    /// A required clause is absent; the token at `offset` is where it was
    /// expected.
    MissingClause { offset: usize, clause: String },
    /// A closing delimiter is missing for the group opened before `offset`.
    UnbalancedDelimiter { offset: usize },
    /// Expression or statement nesting exceeded the fixed depth bound.
    DepthLimitExceeded,
    /// The DDL object type named at `offset` is not one the grammar knows.
    UnsupportedObjectType { offset: usize },
}

/// A structural error found by the validator on a fully built statement.
#[derive(Debug, PartialEq)]
pub enum ValidationError {
    /// A column carries a primary-key constraint yet is declared nullable.
    ConflictingConstraints,
    /// An INSERT names columns but a values row has a different arity,
    /// or it carries neither values rows nor a select source, or both.
    InsertShape,
    /// A LIMIT or OFFSET clause is not a non-negative integer literal.
    NegativeLimitOrOffset,
    /// A name that must be a well-formed identifier is empty.
    MalformedIdentifier,
    /// An expression node is structurally malformed, such as a CASE with no
    /// branches or unequal WHEN and THEN lists.
    MalformedExpression,
    /// A subquery in expression or FROM position is not a SELECT statement.
    MalformedSubquery,
}

/// A construct the grammar recognises but the front end deliberately does
/// not implement; reported, never silently ignored.
#[derive(Debug, PartialEq)]
pub struct UnsupportedFeature {
    pub feature: String,
}

/// Any error of the front end, as the parse entry point reports it.
#[derive(Debug, PartialEq)]
pub enum GqlError {
    Lex(LexError),
    Parse(ParseError),
    Validation(ValidationError),
    Unsupported(UnsupportedFeature),
}

} // verus!
