//! Lexical tokens: keywords (matched case-insensitively), identifiers,
//! numeric and string literals, and punctuation, each carrying the character
//! span it was read from for error reporting.

use vstd::prelude::*;

verus! {

/// The reserved words of the grammar. Keyword matching is case-insensitive;
/// identifiers that match none of these stay identifiers.
#[derive(Debug, Clone, Copy, PartialEq, Eq, Structural)]
pub enum Keyword {
    Select,
    Distinct,
    From,
    Where,
    Group,
    By,
    Having,
    Order,
    Asc,
    Desc,
    Limit,
    Offset,
    And,
    Or,
    Not,
    Like,
    In,
    Is,
    Null,
    True,
    False,
    As,
    Join,
    Inner,
    Left,
    Right,
    Full,
    Outer,
    On,
    Using,
    Insert,
    Into,
    Values,
    Conflict,
    Do,
    Nothing,
    Update,
    SetKw,
    Delete,
    Create,
    Table,
    Index,
    View,
    Model,
    Viz,
    Edge,
    Drop,
    Alter,
    Add,
    Column,
    Rename,
    To,
    Truncate,
    If,
    Exists,
    Cascade,
    Primary,
    Key,
    Unique,
    Check,
    DefaultKw,
    Grant,
    Revoke,
    All,
    Commit,
    Rollback,
    Release,
    Savepoint,
    Go,
    Read,
    Only,
    Timetravel,
    Explain,
    Show,
    Start,
    Transaction,
    End,
    Traverse,
    Via,
    Parse,
    Struct,
    Array,
    Schema,
    Train,
    Predict,
    Evaluate,
    Cast,
    Call,
    Attach,
    Detach,
    With,
    Case,
    When,
    Then,
    Else,
    TypeKw,
    Int,
    Integer,
    Float,
    Real,
    Text,
    StringKw,
    Varchar,
    Bool,
    Boolean,
    Timestamp,
    Binary,
    Blob,
    Regression,
    Classification,
    Clustering,
    Bar,
    Line,
    Scatter,
    Pie,
    Version,
}

/// Operator and punctuation tokens.
#[derive(Debug, Clone, Copy, PartialEq, Eq, Structural)]
pub enum Sym {
    LParen,
    RParen,
    Comma,
    Star,
    Eq,
    Neq,
    Lt,
    Le,
    Gt,
    Ge,
    Plus,
    Minus,
    Slash,
    Percent,
    Semicolon,
}

/// What a token is, with the text the literal kinds carry.
#[derive(Debug, PartialEq)]
pub enum TokenKind {
    Kw(Keyword),
    Ident(String),
    Number(String),
    StrLit(String),
    Sym(Sym),
}

/// One lexical token with its character span `[start, end)` in the input.
#[derive(Debug, PartialEq)]
pub struct Token {
    pub kind: TokenKind,
    pub start: usize,
    pub end: usize,
}

/// A token as the tokenizer promises it: the span lies inside the input and
/// the carried text is exactly what the span holds (for a string literal,
/// the raw text between its quotes).
pub open spec fn token_wf(t: Token, text: Seq<char>) -> bool {
    &&& t.start <= t.end <= text.len()
    &&& match t.kind {
        TokenKind::Ident(s) => s@.len() > 0 && s@ == text.subrange(t.start as int, t.end as int),
        TokenKind::Number(s) => s@.len() > 0 && s@ == text.subrange(t.start as int, t.end as int),
        TokenKind::StrLit(s) => t.start + 2 <= t.end && s@ == text.subrange(
            t.start + 1,
            t.end - 1,
        ),
        _ => true,
    }
}

/// The token is the given keyword with the given span.
pub open spec fn tok_kw(t: Token, k: Keyword, start: int, end: int) -> bool {
    t.start == start && t.end == end && t.kind == TokenKind::Kw(k)
}

/// The token is an identifier with the given text and span.
pub open spec fn tok_ident(t: Token, nm: Seq<char>, start: int, end: int) -> bool {
    t.start == start && t.end == end && match t.kind {
        TokenKind::Ident(s) => s@ == nm,
        _ => false,
    }
}

/// The token is the given punctuation with the given span.
pub open spec fn tok_sym(t: Token, sy: Sym, start: int, end: int) -> bool {
    t.start == start && t.end == end && t.kind == TokenKind::Sym(sy)
}

} // verus!
