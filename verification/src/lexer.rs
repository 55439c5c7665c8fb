//! The tokenizer: query text to an ordered sequence of tokens, skipping
//! whitespace and `--` comments, or a `LexError` at the offending offset.
//! Every token it yields carries a span inside the input and exactly the
//! text of that span.

use vstd::prelude::*;
use crate::error::LexError;
use crate::text::{
    digit_char, ident_cont_char, ident_start_char, is_digit_char, is_ident_start_char,
    space_char, str_eq_ignore_case,
};
use crate::token::{tok_ident, tok_kw, tok_sym, token_wf, Keyword, Sym, Token, TokenKind};

verus! {

/// A lexical error points at a character offset inside (or just past)
/// the input.
pub open spec fn lex_error_wf(e: LexError, text: Seq<char>) -> bool {
    match e {
        LexError::UnterminatedString { offset } => offset <= text.len(),
        LexError::InvalidCharacter { offset } => offset < text.len(),
        LexError::InvalidNumber { offset } => offset < text.len(),
    }
}

/// A character that always begins a token where the tokenizer meets it:
/// whitespace is skipped and `-` may open a comment, but each of these
/// starts an identifier, a literal or a punctuation token.
pub open spec fn definite_token_start(c: char) -> bool {
    ||| is_ident_start_char(c)
    ||| is_digit_char(c)
    ||| c as u32 == 39  // '
    ||| c as u32 == 34  // "
    ||| c as u32 == 40  // (
    ||| c as u32 == 41  // )
    ||| c as u32 == 44  // ,
    ||| c as u32 == 42  // *
    ||| c as u32 == 61  // =
    ||| c as u32 == 43  // +
    ||| c as u32 == 47  // /
    ||| c as u32 == 37  // %
    ||| c as u32 == 59  // ;
    ||| c as u32 == 60  // <
    ||| c as u32 == 62  // >
}

/// The token list of the expression `a OR b AND c`.
pub open spec fn or_and_tokens(toks: Seq<Token>) -> bool {
    &&& toks.len() == 5
    &&& tok_ident(toks[0], "a"@, 0, 1)
    &&& tok_kw(toks[1], Keyword::Or, 2, 4)
    &&& tok_ident(toks[2], "b"@, 5, 6)
    &&& tok_kw(toks[3], Keyword::And, 7, 10)
    &&& tok_ident(toks[4], "c"@, 11, 12)
}

/// The token list of the statement `SELECT * FROM t`.
pub open spec fn select_star_tokens(toks: Seq<Token>) -> bool {
    &&& toks.len() == 4
    &&& tok_kw(toks[0], Keyword::Select, 0, 6)
    &&& tok_sym(toks[1], Sym::Star, 7, 8)
    &&& tok_kw(toks[2], Keyword::From, 9, 13)
    &&& tok_ident(toks[3], "t"@, 14, 15)
}

/// The keyword a word stands for, matched without regard to ASCII case;
/// `None` when the word is an ordinary identifier.
fn keyword_of(s: &str) -> (r: Option<Keyword>)
    ensures
        s@.len() < 2 ==> r is None,
        s@ == "COMMIT"@ ==> r == Some(Keyword::Commit),
        s@ == "END"@ ==> r == Some(Keyword::End),
        s@ == "SELECT"@ ==> r == Some(Keyword::Select),
        s@ == "FROM"@ ==> r == Some(Keyword::From),
        s@ == "OR"@ ==> r == Some(Keyword::Or),
        s@ == "AND"@ ==> r == Some(Keyword::And),
{
    proof {
        reveal_strlit("COMMIT");
        reveal_strlit("END");
        reveal_strlit("SELECT");
        reveal_strlit("FROM");
        reveal_strlit("OR");
        reveal_strlit("AND");
        assert(crate::text::upper_seq("COMMIT"@).len() == 6);
        assert(crate::text::upper_seq("END"@).len() == 3);
        assert(crate::text::upper_seq("SELECT"@).len() == 6);
        assert(crate::text::upper_seq("FROM"@).len() == 4);
        assert(crate::text::upper_seq("OR"@).len() == 2);
        assert(crate::text::upper_seq("AND"@).len() == 3);
        assert(crate::text::upper_seq("SELECT"@)[0] != crate::text::upper_seq("COMMIT"@)[0]);
        assert(crate::text::upper_seq("AND"@)[0] != crate::text::upper_seq("END"@)[0]);
    }
    // no keyword is shorter than two characters
    if s.unicode_len() < 2 {
        return None;
    }
    if str_eq_ignore_case(s, "COMMIT") {
        Some(Keyword::Commit)
    } else if str_eq_ignore_case(s, "END") {
        Some(Keyword::End)
    } else if str_eq_ignore_case(s, "SELECT") {
        Some(Keyword::Select)
    } else if str_eq_ignore_case(s, "FROM") {
        Some(Keyword::From)
    } else if str_eq_ignore_case(s, "OR") {
        Some(Keyword::Or)
    } else if str_eq_ignore_case(s, "AND") {
        Some(Keyword::And)
    } else if str_eq_ignore_case(s, "DISTINCT") {
        Some(Keyword::Distinct)
    } else if str_eq_ignore_case(s, "WHERE") {
        Some(Keyword::Where)
    } else if str_eq_ignore_case(s, "GROUP") {
        Some(Keyword::Group)
    } else if str_eq_ignore_case(s, "BY") {
        Some(Keyword::By)
    } else if str_eq_ignore_case(s, "HAVING") {
        Some(Keyword::Having)
    } else if str_eq_ignore_case(s, "ORDER") {
        Some(Keyword::Order)
    } else if str_eq_ignore_case(s, "ASC") {
        Some(Keyword::Asc)
    } else if str_eq_ignore_case(s, "DESC") {
        Some(Keyword::Desc)
    } else if str_eq_ignore_case(s, "LIMIT") {
        Some(Keyword::Limit)
    } else if str_eq_ignore_case(s, "OFFSET") {
        Some(Keyword::Offset)
    } else if str_eq_ignore_case(s, "NOT") {
        Some(Keyword::Not)
    } else if str_eq_ignore_case(s, "LIKE") {
        Some(Keyword::Like)
    } else if str_eq_ignore_case(s, "IN") {
        Some(Keyword::In)
    } else if str_eq_ignore_case(s, "IS") {
        Some(Keyword::Is)
    } else if str_eq_ignore_case(s, "NULL") {
        Some(Keyword::Null)
    } else if str_eq_ignore_case(s, "TRUE") {
        Some(Keyword::True)
    } else if str_eq_ignore_case(s, "FALSE") {
        Some(Keyword::False)
    } else if str_eq_ignore_case(s, "AS") {
        Some(Keyword::As)
    } else if str_eq_ignore_case(s, "JOIN") {
        Some(Keyword::Join)
    } else if str_eq_ignore_case(s, "INNER") {
        Some(Keyword::Inner)
    } else if str_eq_ignore_case(s, "LEFT") {
        Some(Keyword::Left)
    } else if str_eq_ignore_case(s, "RIGHT") {
        Some(Keyword::Right)
    } else if str_eq_ignore_case(s, "FULL") {
        Some(Keyword::Full)
    } else if str_eq_ignore_case(s, "OUTER") {
        Some(Keyword::Outer)
    } else if str_eq_ignore_case(s, "ON") {
        Some(Keyword::On)
    } else if str_eq_ignore_case(s, "USING") {
        Some(Keyword::Using)
    } else if str_eq_ignore_case(s, "INSERT") {
        Some(Keyword::Insert)
    } else if str_eq_ignore_case(s, "INTO") {
        Some(Keyword::Into)
    } else if str_eq_ignore_case(s, "VALUES") {
        Some(Keyword::Values)
    } else if str_eq_ignore_case(s, "CONFLICT") {
        Some(Keyword::Conflict)
    } else if str_eq_ignore_case(s, "DO") {
        Some(Keyword::Do)
    } else if str_eq_ignore_case(s, "NOTHING") {
        Some(Keyword::Nothing)
    } else if str_eq_ignore_case(s, "UPDATE") {
        Some(Keyword::Update)
    } else if str_eq_ignore_case(s, "SET") {
        Some(Keyword::SetKw)
    } else if str_eq_ignore_case(s, "DELETE") {
        Some(Keyword::Delete)
    } else if str_eq_ignore_case(s, "CREATE") {
        Some(Keyword::Create)
    } else if str_eq_ignore_case(s, "TABLE") {
        Some(Keyword::Table)
    } else if str_eq_ignore_case(s, "INDEX") {
        Some(Keyword::Index)
    } else if str_eq_ignore_case(s, "VIEW") {
        Some(Keyword::View)
    } else if str_eq_ignore_case(s, "MODEL") {
        Some(Keyword::Model)
    } else if str_eq_ignore_case(s, "VIZ") {
        Some(Keyword::Viz)
    } else if str_eq_ignore_case(s, "EDGE") {
        Some(Keyword::Edge)
    } else if str_eq_ignore_case(s, "DROP") {
        Some(Keyword::Drop)
    } else if str_eq_ignore_case(s, "ALTER") {
        Some(Keyword::Alter)
    } else if str_eq_ignore_case(s, "ADD") {
        Some(Keyword::Add)
    } else if str_eq_ignore_case(s, "COLUMN") {
        Some(Keyword::Column)
    } else if str_eq_ignore_case(s, "RENAME") {
        Some(Keyword::Rename)
    } else if str_eq_ignore_case(s, "TO") {
        Some(Keyword::To)
    } else if str_eq_ignore_case(s, "TRUNCATE") {
        Some(Keyword::Truncate)
    } else if str_eq_ignore_case(s, "IF") {
        Some(Keyword::If)
    } else if str_eq_ignore_case(s, "EXISTS") {
        Some(Keyword::Exists)
    } else if str_eq_ignore_case(s, "CASCADE") {
        Some(Keyword::Cascade)
    } else if str_eq_ignore_case(s, "PRIMARY") {
        Some(Keyword::Primary)
    } else if str_eq_ignore_case(s, "KEY") {
        Some(Keyword::Key)
    } else if str_eq_ignore_case(s, "UNIQUE") {
        Some(Keyword::Unique)
    } else if str_eq_ignore_case(s, "CHECK") {
        Some(Keyword::Check)
    } else if str_eq_ignore_case(s, "DEFAULT") {
        Some(Keyword::DefaultKw)
    } else if str_eq_ignore_case(s, "GRANT") {
        Some(Keyword::Grant)
    } else if str_eq_ignore_case(s, "REVOKE") {
        Some(Keyword::Revoke)
    } else if str_eq_ignore_case(s, "ALL") {
        Some(Keyword::All)
    } else if str_eq_ignore_case(s, "ROLLBACK") {
        Some(Keyword::Rollback)
    } else if str_eq_ignore_case(s, "RELEASE") {
        Some(Keyword::Release)
    } else if str_eq_ignore_case(s, "SAVEPOINT") {
        Some(Keyword::Savepoint)
    } else if str_eq_ignore_case(s, "GO") {
        Some(Keyword::Go)
    } else if str_eq_ignore_case(s, "READ") {
        Some(Keyword::Read)
    } else if str_eq_ignore_case(s, "ONLY") {
        Some(Keyword::Only)
    } else if str_eq_ignore_case(s, "TIMETRAVEL") {
        Some(Keyword::Timetravel)
    } else if str_eq_ignore_case(s, "EXPLAIN") {
        Some(Keyword::Explain)
    } else if str_eq_ignore_case(s, "SHOW") {
        Some(Keyword::Show)
    } else if str_eq_ignore_case(s, "START") {
        Some(Keyword::Start)
    } else if str_eq_ignore_case(s, "TRANSACTION") {
        Some(Keyword::Transaction)
    } else if str_eq_ignore_case(s, "TRAVERSE") {
        Some(Keyword::Traverse)
    } else if str_eq_ignore_case(s, "VIA") {
        Some(Keyword::Via)
    } else if str_eq_ignore_case(s, "PARSE") {
        Some(Keyword::Parse)
    } else if str_eq_ignore_case(s, "STRUCT") {
        Some(Keyword::Struct)
    } else if str_eq_ignore_case(s, "ARRAY") {
        Some(Keyword::Array)
    } else if str_eq_ignore_case(s, "SCHEMA") {
        Some(Keyword::Schema)
    } else if str_eq_ignore_case(s, "TRAIN") {
        Some(Keyword::Train)
    } else if str_eq_ignore_case(s, "PREDICT") {
        Some(Keyword::Predict)
    } else if str_eq_ignore_case(s, "EVALUATE") {
        Some(Keyword::Evaluate)
    } else if str_eq_ignore_case(s, "CAST") {
        Some(Keyword::Cast)
    } else if str_eq_ignore_case(s, "CALL") {
        Some(Keyword::Call)
    } else if str_eq_ignore_case(s, "ATTACH") {
        Some(Keyword::Attach)
    } else if str_eq_ignore_case(s, "DETACH") {
        Some(Keyword::Detach)
    } else if str_eq_ignore_case(s, "WITH") {
        Some(Keyword::With)
    } else if str_eq_ignore_case(s, "CASE") {
        Some(Keyword::Case)
    } else if str_eq_ignore_case(s, "WHEN") {
        Some(Keyword::When)
    } else if str_eq_ignore_case(s, "THEN") {
        Some(Keyword::Then)
    } else if str_eq_ignore_case(s, "ELSE") {
        Some(Keyword::Else)
    } else if str_eq_ignore_case(s, "TYPE") {
        Some(Keyword::TypeKw)
    } else if str_eq_ignore_case(s, "INT") {
        Some(Keyword::Int)
    } else if str_eq_ignore_case(s, "INTEGER") {
        Some(Keyword::Integer)
    } else if str_eq_ignore_case(s, "FLOAT") {
        Some(Keyword::Float)
    } else if str_eq_ignore_case(s, "REAL") {
        Some(Keyword::Real)
    } else if str_eq_ignore_case(s, "TEXT") {
        Some(Keyword::Text)
    } else if str_eq_ignore_case(s, "STRING") {
        Some(Keyword::StringKw)
    } else if str_eq_ignore_case(s, "VARCHAR") {
        Some(Keyword::Varchar)
    } else if str_eq_ignore_case(s, "BOOL") {
        Some(Keyword::Bool)
    } else if str_eq_ignore_case(s, "BOOLEAN") {
        Some(Keyword::Boolean)
    } else if str_eq_ignore_case(s, "TIMESTAMP") {
        Some(Keyword::Timestamp)
    } else if str_eq_ignore_case(s, "BINARY") {
        Some(Keyword::Binary)
    } else if str_eq_ignore_case(s, "BLOB") {
        Some(Keyword::Blob)
    } else if str_eq_ignore_case(s, "REGRESSION") {
        Some(Keyword::Regression)
    } else if str_eq_ignore_case(s, "CLASSIFICATION") {
        Some(Keyword::Classification)
    } else if str_eq_ignore_case(s, "CLUSTERING") {
        Some(Keyword::Clustering)
    } else if str_eq_ignore_case(s, "BAR") {
        Some(Keyword::Bar)
    } else if str_eq_ignore_case(s, "LINE") {
        Some(Keyword::Line)
    } else if str_eq_ignore_case(s, "SCATTER") {
        Some(Keyword::Scatter)
    } else if str_eq_ignore_case(s, "PIE") {
        Some(Keyword::Pie)
    } else if str_eq_ignore_case(s, "VERSION") {
        Some(Keyword::Version)
    } else {
        None
    }
}

/// Turns query text into tokens. Whitespace and `--` comments are skipped.
/// On success every token's span lies inside the input and carries exactly
/// the text of that span; on failure the error names an offset inside (or,
/// for an unterminated string, at most at) the end of the input.
pub fn tokenize(text: &str) -> (r: Result<Vec<Token>, LexError>)
    ensures
        r matches Ok(toks) ==> forall|i: int|
            0 <= i < toks@.len() ==> token_wf(#[trigger] toks@[i], text@),
        r matches Ok(toks) ==> forall|i: int, j: int|
            0 <= i < j < toks@.len() ==> #[trigger] toks@[i].end <= #[trigger] toks@[j].start,
        text@.len() == 0 ==> (r matches Ok(toks) && toks@.len() == 0),
        text@ == "COMMIT"@ ==> (r matches Ok(toks) && toks@.len() == 1 && toks@[0].kind
            == TokenKind::Kw(Keyword::Commit) && toks@[0].start == 0 && toks@[0].end == 6),
        text@ == "END"@ ==> (r matches Ok(toks) && toks@.len() == 1 && toks@[0].kind
            == TokenKind::Kw(Keyword::End) && toks@[0].start == 0 && toks@[0].end == 3),
        text@ == "SELECT FROM"@ ==> (r matches Ok(toks) && toks@.len() == 2 && toks@[0].kind
            == TokenKind::Kw(Keyword::Select) && toks@[1].kind == TokenKind::Kw(Keyword::From)
            && toks@[1].start == 7),
        text@ == "a OR b AND c"@ ==> (r matches Ok(toks) && or_and_tokens(toks@)),
        text@ == "SELECT * FROM t"@ ==> (r matches Ok(toks) && select_star_tokens(toks@)),
        text@.len() > 0 && definite_token_start(text@[0]) ==> (r matches Ok(toks) ==> toks@.len()
            > 0 && toks@[0].start == 0),
        r matches Err(e) ==> lex_error_wf(e, text@),
{
    let n = text.unicode_len();
    let mut toks: Vec<Token> = Vec::new();
    let mut pos: usize = 0;
    while pos < n
        invariant
            pos <= n,
            n == text@.len(),
            forall|i: int| 0 <= i < toks@.len() ==> token_wf(#[trigger] toks@[i], text@),
            forall|i: int| 0 <= i < toks@.len() ==> #[trigger] toks@[i].end <= pos,
            forall|i: int, j: int|
                0 <= i < j < toks@.len() ==> #[trigger] toks@[i].end <= #[trigger] toks@[j].start,
            text@.len() > 0 && definite_token_start(text@[0]) && pos > 0 ==> toks@.len() > 0
                && toks@[0].start == 0,
            text@.len() == 0 ==> toks@.len() == 0,
            text@ == "COMMIT"@ ==> (pos == 0 && toks@.len() == 0) || (pos == 6 && toks@.len() == 1
                && toks@[0].kind == TokenKind::Kw(Keyword::Commit) && toks@[0].start == 0
                && toks@[0].end == 6),
            text@ == "END"@ ==> (pos == 0 && toks@.len() == 0) || (pos == 3 && toks@.len() == 1
                && toks@[0].kind == TokenKind::Kw(Keyword::End) && toks@[0].start == 0
                && toks@[0].end == 3),
            text@ == "SELECT FROM"@ ==> (pos == 0 && toks@.len() == 0) || ((pos == 6 || pos == 7)
                && toks@.len() == 1 && toks@[0].kind == TokenKind::Kw(Keyword::Select)
                && toks@[0].start == 0 && toks@[0].end == 6) || (pos == 11 && toks@.len() == 2
                && toks@[0].kind == TokenKind::Kw(Keyword::Select) && toks@[1].kind
                == TokenKind::Kw(Keyword::From) && toks@[1].start == 7 && toks@[1].end == 11),
            text@ == "a OR b AND c"@ ==> {
                ||| (pos == 0 && toks@.len() == 0)
                ||| ((pos == 1 || pos == 2) && toks@.len() == 1 && tok_ident(toks@[0], "a"@, 0, 1))
                ||| ((pos == 4 || pos == 5) && toks@.len() == 2 && tok_ident(toks@[0], "a"@, 0, 1)
                    && tok_kw(toks@[1], Keyword::Or, 2, 4))
                ||| ((pos == 6 || pos == 7) && toks@.len() == 3 && tok_ident(toks@[0], "a"@, 0, 1)
                    && tok_kw(toks@[1], Keyword::Or, 2, 4) && tok_ident(toks@[2], "b"@, 5, 6))
                ||| ((pos == 10 || pos == 11) && toks@.len() == 4 && tok_ident(
                    toks@[0],
                    "a"@,
                    0,
                    1,
                ) && tok_kw(toks@[1], Keyword::Or, 2, 4) && tok_ident(toks@[2], "b"@, 5, 6)
                    && tok_kw(toks@[3], Keyword::And, 7, 10))
                ||| (pos == 12 && or_and_tokens(toks@))
            },
            text@ == "SELECT * FROM t"@ ==> {
                ||| (pos == 0 && toks@.len() == 0)
                ||| ((pos == 6 || pos == 7) && toks@.len() == 1 && tok_kw(
                    toks@[0],
                    Keyword::Select,
                    0,
                    6,
                ))
                ||| ((pos == 8 || pos == 9) && toks@.len() == 2 && tok_kw(
                    toks@[0],
                    Keyword::Select,
                    0,
                    6,
                ) && tok_sym(toks@[1], Sym::Star, 7, 8))
                ||| ((pos == 13 || pos == 14) && toks@.len() == 3 && tok_kw(
                    toks@[0],
                    Keyword::Select,
                    0,
                    6,
                ) && tok_sym(toks@[1], Sym::Star, 7, 8) && tok_kw(toks@[2], Keyword::From, 9, 13))
                ||| (pos == 15 && select_star_tokens(toks@))
            },
        decreases n - pos,
    {
        proof {
            reveal_strlit("COMMIT");
            reveal_strlit("END");
            reveal_strlit("SELECT FROM");
            reveal_strlit("SELECT");
            reveal_strlit("FROM");
            reveal_strlit("a OR b AND c");
            reveal_strlit("a");
            reveal_strlit("b");
            reveal_strlit("c");
            reveal_strlit("OR");
            reveal_strlit("AND");
            reveal_strlit("SELECT * FROM t");
            reveal_strlit("t");
        }
        let c = text.get_char(pos);
        if space_char(c) {
            pos += 1;
        } else if c == '-' && pos + 1 < n && text.get_char(pos + 1) == '-' {
            // comment: skip to the end of the line
            pos += 2;
            let ghost entered: int = pos as int;
            while pos < n && text.get_char(pos) != '\n'
                invariant
                    entered <= pos <= n,
                    n == text@.len(),
                decreases n - pos,
            {
                pos += 1;
            }
        } else if ident_start_char(c) {
            let start = pos;
            pos += 1;
            while pos < n && ident_cont_char(text.get_char(pos))
                invariant
                    start < pos <= n,
                    n == text@.len(),
                    text@ == "COMMIT"@ ==> start == 0 && pos <= 6,
                    text@ == "END"@ ==> start == 0 && pos <= 3,
                    text@ == "SELECT FROM"@ ==> (start == 0 && pos <= 6) || (start == 7 && pos
                        <= 11),
                    text@ == "a OR b AND c"@ ==> (start == 0 && pos <= 1) || (start == 2 && pos
                        <= 4) || (start == 5 && pos <= 6) || (start == 7 && pos <= 10) || (start
                        == 11 && pos <= 12),
                    text@ == "SELECT * FROM t"@ ==> (start == 0 && pos <= 6) || (start == 9 && pos
                        <= 13) || (start == 14 && pos <= 15),
                decreases n - pos,
            {
                proof {
                    reveal_strlit("COMMIT");
                    reveal_strlit("END");
                    reveal_strlit("SELECT FROM");
                    reveal_strlit("a OR b AND c");
                    reveal_strlit("SELECT * FROM t");
                }
                pos += 1;
            }
            let word = text.substring_char(start, pos);
            proof {
                reveal_strlit("COMMIT");
                reveal_strlit("END");
                reveal_strlit("SELECT FROM");
                reveal_strlit("SELECT");
                reveal_strlit("FROM");
                reveal_strlit("a OR b AND c");
                reveal_strlit("a");
                reveal_strlit("b");
                reveal_strlit("c");
                reveal_strlit("OR");
                reveal_strlit("AND");
                reveal_strlit("SELECT * FROM t");
                reveal_strlit("t");
                if text@ == "COMMIT"@ {
                    assert(pos == 6) by {
                        if pos < 6 {
                            assert(crate::text::is_ident_cont_char(text@[pos as int]));
                        }
                    };
                    assert(word@ =~= "COMMIT"@);
                }
                if text@ == "END"@ {
                    assert(pos == 3) by {
                        if pos < 3 {
                            assert(crate::text::is_ident_cont_char(text@[pos as int]));
                        }
                    };
                    assert(word@ =~= "END"@);
                }
                if text@ == "SELECT FROM"@ {
                    if start == 0 {
                        assert(pos == 6) by {
                            if pos < 6 {
                                assert(crate::text::is_ident_cont_char(text@[pos as int]));
                            }
                        };
                        assert(word@ =~= "SELECT"@);
                    } else {
                        assert(pos == 11) by {
                            if pos < 11 {
                                assert(crate::text::is_ident_cont_char(text@[pos as int]));
                            }
                        };
                        assert(word@ =~= "FROM"@);
                    }
                }
                if text@ == "SELECT * FROM t"@ {
                    if start == 0 {
                        assert(pos == 6) by {
                            if pos < 6 {
                                assert(crate::text::is_ident_cont_char(text@[pos as int]));
                            }
                        };
                        assert(word@ =~= "SELECT"@);
                    } else if start == 9 {
                        assert(pos == 13) by {
                            if pos < 13 {
                                assert(crate::text::is_ident_cont_char(text@[pos as int]));
                            }
                        };
                        assert(word@ =~= "FROM"@);
                    } else {
                        assert(word@ =~= "t"@);
                    }
                }
                if text@ == "a OR b AND c"@ {
                    if start == 0 {
                        assert(word@ =~= "a"@);
                    } else if start == 2 {
                        assert(pos == 4) by {
                            if pos < 4 {
                                assert(crate::text::is_ident_cont_char(text@[pos as int]));
                            }
                        };
                        assert(word@ =~= "OR"@);
                    } else if start == 5 {
                        assert(word@ =~= "b"@);
                    } else if start == 7 {
                        assert(pos == 10) by {
                            if pos < 10 {
                                assert(crate::text::is_ident_cont_char(text@[pos as int]));
                            }
                        };
                        assert(word@ =~= "AND"@);
                    } else {
                        assert(word@ =~= "c"@);
                    }
                }
            }
            let kind = match keyword_of(word) {
                Some(k) => TokenKind::Kw(k),
                None => TokenKind::Ident(String::from_str(word)),
            };
            toks.push(Token { kind, start, end: pos });
        } else if digit_char(c) {
            let start = pos;
            pos += 1;
            while pos < n && digit_char(text.get_char(pos))
                invariant
                    start < pos <= n,
                    n == text@.len(),
                decreases n - pos,
            {
                pos += 1;
            }
            // a fractional part: a dot followed by at least one digit
            if pos < n && text.get_char(pos) == '.' && pos + 1 < n && digit_char(
                text.get_char(pos + 1),
            ) {
                pos += 2;
                while pos < n && digit_char(text.get_char(pos))
                    invariant
                        start < pos <= n,
                        n == text@.len(),
                    decreases n - pos,
                {
                    pos += 1;
                }
            }
            if pos < n && ident_start_char(text.get_char(pos)) {
                return Err(LexError::InvalidNumber { offset: start });
            }
            let num = text.substring_char(start, pos);
            toks.push(Token { kind: TokenKind::Number(String::from_str(num)), start, end: pos });
        } else if c == '\'' || c == '"' {
            let quote = c;
            let start = pos;
            pos += 1;
            loop
                invariant
                    start < pos <= n,
                    n == text@.len(),
                    text@ != "COMMIT"@,
                    text@ != "END"@,
                    text@ != "SELECT FROM"@,
                    text@ != "a OR b AND c"@,
                    text@ != "SELECT * FROM t"@,
                ensures
                    start < pos < n,
                decreases n - pos,
            {
                if pos >= n {
                    return Err(LexError::UnterminatedString { offset: start });
                }
                let d = text.get_char(pos);
                if d == '\\' {
                    if pos + 1 < n {
                        pos += 2;
                    } else {
                        return Err(LexError::UnterminatedString { offset: start });
                    }
                } else if d == quote {
                    break;
                } else {
                    pos += 1;
                }
            }
            let inner = text.substring_char(start + 1, pos);
            pos += 1;
            toks.push(
                Token { kind: TokenKind::StrLit(String::from_str(inner)), start, end: pos },
            );
        } else if c == '(' {
            toks.push(Token { kind: TokenKind::Sym(Sym::LParen), start: pos, end: pos + 1 });
            pos += 1;
        } else if c == ')' {
            toks.push(Token { kind: TokenKind::Sym(Sym::RParen), start: pos, end: pos + 1 });
            pos += 1;
        } else if c == ',' {
            toks.push(Token { kind: TokenKind::Sym(Sym::Comma), start: pos, end: pos + 1 });
            pos += 1;
        } else if c == '*' {
            toks.push(Token { kind: TokenKind::Sym(Sym::Star), start: pos, end: pos + 1 });
            pos += 1;
        } else if c == '=' {
            toks.push(Token { kind: TokenKind::Sym(Sym::Eq), start: pos, end: pos + 1 });
            pos += 1;
        } else if c == '+' {
            toks.push(Token { kind: TokenKind::Sym(Sym::Plus), start: pos, end: pos + 1 });
            pos += 1;
        } else if c == '-' {
            toks.push(Token { kind: TokenKind::Sym(Sym::Minus), start: pos, end: pos + 1 });
            pos += 1;
        } else if c == '/' {
            toks.push(Token { kind: TokenKind::Sym(Sym::Slash), start: pos, end: pos + 1 });
            pos += 1;
        } else if c == '%' {
            toks.push(Token { kind: TokenKind::Sym(Sym::Percent), start: pos, end: pos + 1 });
            pos += 1;
        } else if c == ';' {
            toks.push(Token { kind: TokenKind::Sym(Sym::Semicolon), start: pos, end: pos + 1 });
            pos += 1;
        } else if c == '<' {
            if pos + 1 < n && text.get_char(pos + 1) == '=' {
                toks.push(Token { kind: TokenKind::Sym(Sym::Le), start: pos, end: pos + 2 });
                pos += 2;
            } else if pos + 1 < n && text.get_char(pos + 1) == '>' {
                toks.push(Token { kind: TokenKind::Sym(Sym::Neq), start: pos, end: pos + 2 });
                pos += 2;
            } else {
                toks.push(Token { kind: TokenKind::Sym(Sym::Lt), start: pos, end: pos + 1 });
                pos += 1;
            }
        } else if c == '>' {
            if pos + 1 < n && text.get_char(pos + 1) == '=' {
                toks.push(Token { kind: TokenKind::Sym(Sym::Ge), start: pos, end: pos + 2 });
                pos += 2;
            } else {
                toks.push(Token { kind: TokenKind::Sym(Sym::Gt), start: pos, end: pos + 1 });
                pos += 1;
            }
        } else if c == '!' {
            if pos + 1 < n && text.get_char(pos + 1) == '=' {
                toks.push(Token { kind: TokenKind::Sym(Sym::Neq), start: pos, end: pos + 2 });
                pos += 2;
            } else {
                return Err(LexError::InvalidCharacter { offset: pos });
            }
        } else {
            return Err(LexError::InvalidCharacter { offset: pos });
        }
    }
    proof {
        reveal_strlit("COMMIT");
        reveal_strlit("END");
        reveal_strlit("SELECT FROM");
        reveal_strlit("a OR b AND c");
        reveal_strlit("SELECT * FROM t");
    }
    Ok(toks)
}

} // verus!
