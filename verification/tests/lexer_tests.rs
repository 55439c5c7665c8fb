use gobble::error::LexError;
use gobble::lexer::tokenize;
use gobble::token::{Keyword, Sym, Token, TokenKind};

#[test]
fn tokens_carry_kinds_and_spans() {
    let toks = tokenize("SELECT 'a b' x1 12.5 <= <>").unwrap();
    let expected = vec![
        Token { kind: TokenKind::Kw(Keyword::Select), start: 0, end: 6 },
        Token { kind: TokenKind::StrLit("a b".to_string()), start: 7, end: 12 },
        Token { kind: TokenKind::Ident("x1".to_string()), start: 13, end: 15 },
        Token { kind: TokenKind::Number("12.5".to_string()), start: 16, end: 20 },
        Token { kind: TokenKind::Sym(Sym::Le), start: 21, end: 23 },
        Token { kind: TokenKind::Sym(Sym::Neq), start: 24, end: 26 },
    ];
    assert_eq!(toks, expected);
}

#[test]
fn keywords_match_case_insensitively() {
    let toks = tokenize("select SeLeCt SELECT").unwrap();
    for t in &toks {
        assert_eq!(t.kind, TokenKind::Kw(Keyword::Select));
    }
    assert_eq!(toks.len(), 3);
}

#[test]
fn comments_are_skipped_not_emitted() {
    let toks = tokenize("a -- everything here is ignored\nb").unwrap();
    assert_eq!(toks.len(), 2);
    assert_eq!(toks[0].kind, TokenKind::Ident("a".to_string()));
    assert_eq!(toks[1].kind, TokenKind::Ident("b".to_string()));
}

#[test]
fn string_escapes_are_recognised() {
    // an escaped quote does not end the literal; the raw text is kept
    let toks = tokenize("'a\\'b'").unwrap();
    assert_eq!(toks.len(), 1);
    assert_eq!(toks[0].kind, TokenKind::StrLit("a\\'b".to_string()));
    assert_eq!((toks[0].start, toks[0].end), (0, 6));
}

#[test]
fn unterminated_string_reports_its_start() {
    assert_eq!(
        tokenize("x 'abc"),
        Err(LexError::UnterminatedString { offset: 2 })
    );
}

#[test]
fn invalid_character_reports_its_offset() {
    assert_eq!(tokenize("ab #"), Err(LexError::InvalidCharacter { offset: 3 }));
}

#[test]
fn number_running_into_letters_is_invalid() {
    assert_eq!(tokenize("12abc"), Err(LexError::InvalidNumber { offset: 0 }));
    assert_eq!(tokenize("x 1.5e"), Err(LexError::InvalidNumber { offset: 2 }));
}

#[test]
fn double_quoted_strings_are_literals_too() {
    let toks = tokenize("\"hi\"").unwrap();
    assert_eq!(toks[0].kind, TokenKind::StrLit("hi".to_string()));
}
