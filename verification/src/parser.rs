//! The recursive descent parser: a token cursor, clause parsers composed
//! into statement builders, and a precedence-climbing expression parser
//! (`OR` < `AND` < comparison < additive < multiplicative < unary < primary,
//! all binary operators left-associative). Recursion is bounded by an
//! explicit depth counter, so parsing always terminates; a statement is
//! returned only after the validator has accepted it.

use vstd::prelude::*;
use crate::ast::{
    AlterOperation, Assignment, BinaryOperator, Column, Constraint, ConstraintType, DataType,
    Expression, FromItem, JoinConstraint, JoinOperator, ModelType, ObjectType, OnConflict,
    OrderByExpr, Privilege, SelectItem, Statement, TableOption, UnaryOperator, Value, VizType,
};
use crate::error::{GqlError, ParseError};
use crate::lexer::tokenize;
use crate::token::{token_wf, Keyword, Sym, Token, TokenKind};
use crate::validate::{stmt_ok, validate_statement};

verus! {

/// A parse error as the parser promises it: every offset lies inside (or,
/// at the end of the input, just past) the text, and the found token of an
/// unexpected-token error is exactly the text standing at its offset.
pub open spec fn parse_error_wf(e: ParseError, text: Seq<char>) -> bool {
    match e {
        ParseError::UnexpectedToken { offset, expected, found } => offset + found@.len()
            <= text.len() && found@ == text.subrange(offset as int, offset + found@.len()),
        ParseError::UnexpectedEnd { offset, expected } => offset == text.len(),
        ParseError::MissingClause { offset, clause } => offset <= text.len(),
        ParseError::UnbalancedDelimiter { offset } => offset <= text.len(),
        ParseError::DepthLimitExceeded => true,
        ParseError::UnsupportedObjectType { offset } => offset <= text.len(),
    }
}

/// The text an identifier token carries; other kinds carry none.
pub open spec fn ident_text(k: TokenKind) -> Seq<char> {
    match k {
        TokenKind::Ident(s) => s@,
        _ => Seq::empty(),
    }
}

/// The token kinds that can begin a comparison operator.
pub open spec fn starts_cmp_op(k: TokenKind) -> bool {
    ||| k == TokenKind::Sym(Sym::Eq)
    ||| k == TokenKind::Sym(Sym::Neq)
    ||| k == TokenKind::Sym(Sym::Le)
    ||| k == TokenKind::Sym(Sym::Lt)
    ||| k == TokenKind::Sym(Sym::Ge)
    ||| k == TokenKind::Sym(Sym::Gt)
    ||| k == TokenKind::Kw(Keyword::Like)
    ||| k == TokenKind::Kw(Keyword::In)
    ||| k == TokenKind::Kw(Keyword::Not)
    ||| k == TokenKind::Kw(Keyword::Is)
}

/// The expression is a column reference with the given name.
pub open spec fn is_column(e: Expression, nm: Seq<char>) -> bool {
    match e {
        Expression::Column { name } => name@ == nm,
        _ => false,
    }
}

/// The column name standing at a cursor index of the `a OR b AND c` token
/// list.
pub open spec fn or_and_col_at(i: int) -> Seq<char> {
    if i == 0 {
        "a"@
    } else if i == 2 {
        "b"@
    } else {
        "c"@
    }
}

/// `b AND c`: the right operand the precedence table gives the example.
pub open spec fn or_and_inner(e: Expression) -> bool {
    match e {
        Expression::BinaryOp { left, op, right } => op == BinaryOperator::And && is_column(
            *left,
            "b"@,
        ) && is_column(*right, "c"@),
        _ => false,
    }
}

/// The tree the precedence table yields for `a OR b AND c`: AND binds
/// tighter than OR, so the AND node nests on the right of the OR node.
pub open spec fn precedence_example(e: Expression) -> bool {
    match e {
        Expression::BinaryOp { left, op, right } => op == BinaryOperator::Or && is_column(
            *left,
            "a"@,
        ) && or_and_inner(*right),
        _ => false,
    }
}

/// The FROM source is the bare table `t` with no alias.
pub open spec fn is_table_t(f: FromItem) -> bool {
    match f {
        FromItem::Table { name, alias } => name@ == "t"@ && alias is None,
        _ => false,
    }
}

/// What `SELECT * FROM t` parses to: no DISTINCT, a lone wildcard
/// projection, the table `t`, and every optional clause absent.
pub open spec fn select_defaults_example(s: Statement) -> bool {
    match s {
        Statement::Select {
            distinct,
            projection,
            from,
            selection,
            group_by,
            having,
            order_by,
            limit,
            offset,
        } => {
            &&& !distinct
            &&& projection.len() == 1 && projection[0] == SelectItem::Wildcard
            &&& from.len() == 1 && is_table_t(from[0])
            &&& selection is None
            &&& group_by.len() == 0
            &&& having is None
            &&& order_by.len() == 0
            &&& limit is None
            &&& offset is None
        },
        _ => false,
    }
}

/// The nesting bound: statements or expressions nested more deeply than
/// this (counting every grammar level) are rejected, never overflow the
/// call stack.
pub const MAX_DEPTH: u32 = 255;

/// The token cursor the clause parsers share.
struct Parser {
    toks: Vec<Token>,
    pos: usize,
    input_len: usize,
    text: String,
}

impl Parser {
    /// The cursor invariant: the position stays inside the token list, and
    /// every token is well formed against the input text the cursor keeps
    /// for error reporting.
    spec fn wf(self) -> bool {
        &&& self.pos <= self.toks@.len()
        &&& self.input_len == self.text@.len()
        &&& forall|i: int|
            0 <= i < self.toks@.len() ==> token_wf(#[trigger] self.toks@[i], self.text@)
    }

    /// What one parsing step may do: keep the tokens and the text, move
    /// only forward.
    spec fn step(a: Parser, b: Parser) -> bool {
        b.toks == a.toks && b.input_len == a.input_len && b.text == a.text && a.pos <= b.pos
    }

    fn at_end(&self) -> (r: bool)
        ensures
            r == (self.pos >= self.toks@.len()),
    {
        self.pos >= self.toks.len()
    }

    /// The offset the current token starts at, or the input length at the
    /// end: where an error message points.
    fn cur_offset(&self) -> (r: usize)
        requires
            self.wf(),
        ensures
            r <= self.text@.len(),
            self.pos < self.toks@.len() ==> r == self.toks@[self.pos as int].start,
            self.pos >= self.toks@.len() ==> r == self.input_len,
    {
        if self.pos < self.toks.len() {
            proof {
                assert(token_wf(self.toks@[self.pos as int], self.text@));
            }
            self.toks[self.pos].start
        } else {
            self.input_len
        }
    }

    /// The error for "expected `what`, found the current token (or the end
    /// of the input)".
    fn err_expected(&self, what: &str) -> (r: ParseError)
        requires
            self.wf(),
        ensures
            parse_error_wf(r, self.text@),
            r is UnexpectedToken || r is UnexpectedEnd,
    {
        if self.pos < self.toks.len() {
            proof {
                assert(token_wf(self.toks@[self.pos as int], self.text@));
            }
            let t = &self.toks[self.pos];
            let found = String::from_str(self.text.as_str().substring_char(t.start, t.end));
            ParseError::UnexpectedToken {
                offset: t.start,
                expected: String::from_str(what),
                found,
            }
        } else {
            ParseError::UnexpectedEnd { offset: self.input_len, expected: String::from_str(what) }
        }
    }

    fn peek_kw(&self, k: Keyword) -> (r: bool)
        requires
            self.wf(),
        ensures
            r == (self.pos < self.toks@.len() && self.toks@[self.pos as int].kind
                == TokenKind::Kw(k)),
    {
        if self.pos < self.toks.len() {
            match &self.toks[self.pos].kind {
                TokenKind::Kw(k2) => *k2 == k,
                _ => false,
            }
        } else {
            false
        }
    }

    /// Whether the token after the current one is the given keyword.
    fn peek2_kw(&self, k: Keyword) -> (r: bool)
        requires
            self.wf(),
        ensures
            r ==> self.pos + 1 < self.toks@.len() && self.toks@[self.pos + 1].kind
                == TokenKind::Kw(k),
    {
        if self.pos < self.toks.len() && self.pos + 1 < self.toks.len() {
            match &self.toks[self.pos + 1].kind {
                TokenKind::Kw(k2) => *k2 == k,
                _ => false,
            }
        } else {
            false
        }
    }

    fn peek_sym(&self, sy: Sym) -> (r: bool)
        requires
            self.wf(),
        ensures
            r == (self.pos < self.toks@.len() && self.toks@[self.pos as int].kind
                == TokenKind::Sym(sy)),
    {
        if self.pos < self.toks.len() {
            match &self.toks[self.pos].kind {
                TokenKind::Sym(s2) => *s2 == sy,
                _ => false,
            }
        } else {
            false
        }
    }

    fn peek_ident(&self) -> (r: bool)
        requires
            self.wf(),
        ensures
            r == (self.pos < self.toks@.len() && self.toks@[self.pos as int].kind is Ident),
    {
        if self.pos < self.toks.len() {
            matches!(&self.toks[self.pos].kind, TokenKind::Ident(_))
        } else {
            false
        }
    }

    fn eat_kw(&mut self, k: Keyword) -> (r: bool)
        requires
            old(self).wf(),
        ensures
            final(self).wf(),
            Parser::step(*old(self), *final(self)),
            r == (old(self).pos < old(self).toks@.len() && old(self).toks@[old(
                self,
            ).pos as int].kind == TokenKind::Kw(k)),
            r ==> final(self).pos == old(self).pos + 1,
            !r ==> final(self).pos == old(self).pos,
    {
        if self.peek_kw(k) {
            let n = self.toks.len();
            assert(self.pos < n);
            self.pos = self.pos + 1;
            true
        } else {
            false
        }
    }

    fn eat_sym(&mut self, sy: Sym) -> (r: bool)
        requires
            old(self).wf(),
        ensures
            final(self).wf(),
            Parser::step(*old(self), *final(self)),
            r == (old(self).pos < old(self).toks@.len() && old(self).toks@[old(
                self,
            ).pos as int].kind == TokenKind::Sym(sy)),
            r ==> final(self).pos == old(self).pos + 1,
            !r ==> final(self).pos == old(self).pos,
    {
        if self.peek_sym(sy) {
            let n = self.toks.len();
            assert(self.pos < n);
            self.pos = self.pos + 1;
            true
        } else {
            false
        }
    }

    fn expect_kw(&mut self, k: Keyword, what: &str) -> (r: Result<(), ParseError>)
        requires
            old(self).wf(),
        ensures
            final(self).wf(),
            Parser::step(*old(self), *final(self)),
            r matches Err(e) ==> parse_error_wf(e, old(self).text@),
            r is Ok <==> (old(self).pos < old(self).toks@.len() && old(self).toks@[old(
                self,
            ).pos as int].kind == TokenKind::Kw(k)),
            r is Ok ==> final(self).pos == old(self).pos + 1,
            r is Err ==> final(self).pos == old(self).pos,
    {
        if self.eat_kw(k) {
            Ok(())
        } else {
            Err(self.err_expected(what))
        }
    }

    fn expect_sym(&mut self, sy: Sym, what: &str) -> (r: Result<(), ParseError>)
        requires
            old(self).wf(),
        ensures
            final(self).wf(),
            Parser::step(*old(self), *final(self)),
            r matches Err(e) ==> parse_error_wf(e, old(self).text@),
            r is Ok ==> old(self).pos < final(self).pos,
    {
        if self.eat_sym(sy) {
            Ok(())
        } else {
            Err(self.err_expected(what))
        }
    }

    /// Takes the current token as an identifier; the result is never empty.
    fn expect_ident(&mut self, what: &str) -> (r: Result<String, ParseError>)
        requires
            old(self).wf(),
        ensures
            final(self).wf(),
            Parser::step(*old(self), *final(self)),
            r matches Err(e) ==> parse_error_wf(e, old(self).text@),
            r matches Ok(s) ==> s@.len() > 0 && old(self).pos < final(self).pos,
            old(self).pos < old(self).toks@.len() && old(self).toks@[old(self).pos as int].kind
                is Ident ==> (r matches Ok(res) && res@ == ident_text(old(self).toks@[old(
                self,
            ).pos as int].kind) && final(self).pos == old(self).pos + 1),
    {
        if self.pos < self.toks.len() {
            proof {
                assert(token_wf(self.toks@[self.pos as int], self.text@));
            }
            let name = match &self.toks[self.pos].kind {
                TokenKind::Ident(s) => Some(s.clone()),
                _ => None,
            };
            match name {
                Some(s) => {
                    let n = self.toks.len();
                    assert(self.pos < n);
                    self.pos = self.pos + 1;
                    Ok(s)
                },
                None => Err(self.err_expected(what)),
            }
        } else {
            Err(self.err_expected(what))
        }
    }

    /// A literal value token: number, string, TRUE, FALSE or NULL.
    fn parse_value(&mut self) -> (r: Result<Value, ParseError>)
        requires
            old(self).wf(),
        ensures
            final(self).wf(),
            Parser::step(*old(self), *final(self)),
            r matches Err(e) ==> parse_error_wf(e, old(self).text@),
            old(self).pos >= old(self).toks@.len() ==> r is Err,
            r matches Ok(v) ==> crate::validate::value_ok(v) && old(self).pos < final(self).pos,
    {
        if self.pos < self.toks.len() {
            proof {
                assert(token_wf(self.toks@[self.pos as int], self.text@));
            }
            let v = match &self.toks[self.pos].kind {
                TokenKind::Number(s) => Some(Value::Number(s.clone())),
                TokenKind::StrLit(s) => Some(Value::String(s.clone())),
                TokenKind::Kw(Keyword::True) => Some(Value::Boolean(true)),
                TokenKind::Kw(Keyword::False) => Some(Value::Boolean(false)),
                TokenKind::Kw(Keyword::Null) => Some(Value::Null),
                _ => None,
            };
            match v {
                Some(v) => {
                    let n = self.toks.len();
                    assert(self.pos < n);
                    self.pos = self.pos + 1;
                    Ok(v)
                },
                None => Err(self.err_expected("literal value")),
            }
        } else {
            Err(self.err_expected("literal value"))
        }
    }

    /// A scalar data type name.
    fn parse_data_type(&mut self) -> (r: Result<DataType, ParseError>)
        requires
            old(self).wf(),
        ensures
            final(self).wf(),
            Parser::step(*old(self), *final(self)),
            r matches Err(e) ==> parse_error_wf(e, old(self).text@),
            r is Ok ==> old(self).pos < final(self).pos,
    {
        if self.eat_kw(Keyword::Int) || self.eat_kw(Keyword::Integer) {
            Ok(DataType::Int)
        } else if self.eat_kw(Keyword::Float) || self.eat_kw(Keyword::Real) {
            Ok(DataType::Float)
        } else if self.eat_kw(Keyword::Text) || self.eat_kw(Keyword::StringKw) || self.eat_kw(
            Keyword::Varchar,
        ) {
            Ok(DataType::Text)
        } else if self.eat_kw(Keyword::Bool) || self.eat_kw(Keyword::Boolean) {
            Ok(DataType::Boolean)
        } else if self.eat_kw(Keyword::Timestamp) {
            Ok(DataType::Timestamp)
        } else if self.eat_kw(Keyword::Binary) || self.eat_kw(Keyword::Blob) {
            Ok(DataType::Binary)
        } else {
            Err(self.err_expected("data type"))
        }
    }

    /// A comma-separated list of identifiers.
    fn parse_name_list(&mut self) -> (r: Result<Vec<String>, ParseError>)
        requires
            old(self).wf(),
        ensures
            final(self).wf(),
            Parser::step(*old(self), *final(self)),
            r matches Err(e) ==> parse_error_wf(e, old(self).text@),
            r matches Ok(ns) ==> ns@.len() > 0 && forall|i: int|
                0 <= i < ns@.len() ==> #[trigger] ns@[i]@.len() > 0,
    {
        let mut names: Vec<String> = Vec::new();
        let first = self.expect_ident("identifier")?;
        names.push(first);
        while self.eat_sym(Sym::Comma)
            invariant
                self.wf(),
                Parser::step(*old(self), *self),
                names@.len() > 0,
                forall|i: int| 0 <= i < names@.len() ==> #[trigger] names@[i]@.len() > 0,
            decreases self.toks@.len() - self.pos,
        {
            let nm = self.expect_ident("identifier")?;
            names.push(nm);
        }
        Ok(names)
    }

    /// A `WITH (name = value, ...)` option list, when present.
    fn parse_with_options(&mut self) -> (r: Result<Vec<TableOption>, ParseError>)
        requires
            old(self).wf(),
        ensures
            final(self).wf(),
            Parser::step(*old(self), *final(self)),
            r matches Err(e) ==> parse_error_wf(e, old(self).text@),
            r matches Ok(os) ==> crate::validate::options_ok(os@),
    {
        let mut options: Vec<TableOption> = Vec::new();
        if !self.eat_kw(Keyword::With) {
            return Ok(options);
        }
        self.expect_sym(Sym::LParen, "(")?;
        loop
            invariant
                self.wf(),
                Parser::step(*old(self), *self),
                crate::validate::options_ok(options@),
            decreases self.toks@.len() - self.pos,
        {
            let name = self.expect_ident("option name")?;
            self.expect_sym(Sym::Eq, "=")?;
            let value = self.parse_value()?;
            options.push(TableOption { name, value });
            if !self.eat_sym(Sym::Comma) {
                break;
            }
        }
        if self.eat_sym(Sym::RParen) {
            Ok(options)
        } else {
            Err(ParseError::UnbalancedDelimiter { offset: self.cur_offset() })
        }
    }

    /// A comma-separated expression list, at least one expression.
    fn parse_expr_list(&mut self, depth: u32) -> (r: Result<Vec<Expression>, ParseError>)
        requires
            old(self).wf(),
        ensures
            final(self).wf(),
            Parser::step(*old(self), *final(self)),
            r matches Err(e) ==> parse_error_wf(e, old(self).text@),
        decreases depth,
    {
        if depth == 0 {
            return Err(ParseError::DepthLimitExceeded);
        }
        let d = depth - 1;
        let mut es: Vec<Expression> = Vec::new();
        let first = self.parse_expr(d)?;
        es.push(first);
        while self.eat_sym(Sym::Comma)
            invariant
                self.wf(),
                Parser::step(*old(self), *self),
                d < depth,
            decreases self.toks@.len() - self.pos,
        {
            let e = self.parse_expr(d)?;
            es.push(e);
        }
        Ok(es)
    }

    /// An expression, from the lowest precedence level (`OR`).
    fn parse_expr(&mut self, depth: u32) -> (r: Result<Expression, ParseError>)
        requires
            old(self).wf(),
        ensures
            final(self).wf(),
            Parser::step(*old(self), *final(self)),
            r matches Err(e) ==> parse_error_wf(e, old(self).text@),
            old(self).pos >= old(self).toks@.len() ==> r is Err,
            r is Ok ==> old(self).pos < final(self).pos,
            crate::lexer::or_and_tokens(old(self).toks@) && old(self).pos == 0 && depth > 7 ==> (
            r matches Ok(e) && precedence_example(e) && final(self).pos == 5),
        decreases depth,
    {
        if depth == 0 {
            return Err(ParseError::DepthLimitExceeded);
        }
        let d = depth - 1;
        self.parse_or(d)
    }

    fn parse_or(&mut self, depth: u32) -> (r: Result<Expression, ParseError>)
        requires
            old(self).wf(),
        ensures
            final(self).wf(),
            Parser::step(*old(self), *final(self)),
            r matches Err(e) ==> parse_error_wf(e, old(self).text@),
            old(self).pos >= old(self).toks@.len() ==> r is Err,
            r is Ok ==> old(self).pos < final(self).pos,
            crate::lexer::or_and_tokens(old(self).toks@) && old(self).pos == 0 && depth > 6 ==> (
            r matches Ok(e) && precedence_example(e) && final(self).pos == 5),
        decreases depth,
    {
        if depth == 0 {
            return Err(ParseError::DepthLimitExceeded);
        }
        let d = depth - 1;
        let mut e = self.parse_and(d)?;
        while self.eat_kw(Keyword::Or)
            invariant
                self.wf(),
                Parser::step(*old(self), *self),
                d < depth,
                d + 1 == depth,
                old(self).pos < self.pos,
                crate::lexer::or_and_tokens(old(self).toks@) && old(self).pos == 0 && d > 5 ==> (
                self.pos == 1 && is_column(e, "a"@)) || (self.pos == 5 && precedence_example(e)),
            decreases self.toks@.len() - self.pos,
        {
            let rhs = self.parse_and(d)?;
            e = Expression::BinaryOp {
                left: Box::new(e),
                op: BinaryOperator::Or,
                right: Box::new(rhs),
            };
        }
        Ok(e)
    }

    fn parse_and(&mut self, depth: u32) -> (r: Result<Expression, ParseError>)
        requires
            old(self).wf(),
        ensures
            final(self).wf(),
            Parser::step(*old(self), *final(self)),
            r matches Err(e) ==> parse_error_wf(e, old(self).text@),
            old(self).pos >= old(self).toks@.len() ==> r is Err,
            r is Ok ==> old(self).pos < final(self).pos,
            crate::lexer::or_and_tokens(old(self).toks@) && old(self).pos == 0 && depth > 5 ==> (
            r matches Ok(e) && is_column(e, "a"@) && final(self).pos == 1),
            crate::lexer::or_and_tokens(old(self).toks@) && old(self).pos == 2 && depth > 5 ==> (
            r matches Ok(e) && or_and_inner(e) && final(self).pos == 5),
        decreases depth,
    {
        if depth == 0 {
            return Err(ParseError::DepthLimitExceeded);
        }
        let d = depth - 1;
        let mut e = self.parse_cmp(d)?;
        while self.eat_kw(Keyword::And)
            invariant
                self.wf(),
                Parser::step(*old(self), *self),
                d < depth,
                d + 1 == depth,
                old(self).pos < self.pos,
                crate::lexer::or_and_tokens(old(self).toks@) && old(self).pos == 0 && d > 4
                    ==> self.pos == 1 && is_column(e, "a"@),
                crate::lexer::or_and_tokens(old(self).toks@) && old(self).pos == 2 && d > 4 ==> (
                self.pos == 3 && is_column(e, "b"@)) || (self.pos == 5 && or_and_inner(e)),
            decreases self.toks@.len() - self.pos,
        {
            let rhs = self.parse_cmp(d)?;
            e = Expression::BinaryOp {
                left: Box::new(e),
                op: BinaryOperator::And,
                right: Box::new(rhs),
            };
        }
        Ok(e)
    }

    /// The comparison operator at the cursor, if any; consumes it.
    fn eat_cmp_op(&mut self) -> (r: Option<BinaryOperator>)
        requires
            old(self).wf(),
        ensures
            final(self).wf(),
            Parser::step(*old(self), *final(self)),
            r is Some ==> old(self).pos < final(self).pos,
            r is Some ==> old(self).pos < old(self).toks@.len() && starts_cmp_op(
                old(self).toks@[old(self).pos as int].kind,
            ),
            r is None ==> final(self).pos == old(self).pos,
    {
        if self.eat_sym(Sym::Eq) {
            Some(BinaryOperator::Equals)
        } else if self.eat_sym(Sym::Neq) {
            Some(BinaryOperator::NotEquals)
        } else if self.eat_sym(Sym::Le) {
            Some(BinaryOperator::LessThanOrEquals)
        } else if self.eat_sym(Sym::Lt) {
            Some(BinaryOperator::LessThan)
        } else if self.eat_sym(Sym::Ge) {
            Some(BinaryOperator::GreaterThanOrEquals)
        } else if self.eat_sym(Sym::Gt) {
            Some(BinaryOperator::GreaterThan)
        } else if self.eat_kw(Keyword::Like) {
            Some(BinaryOperator::Like)
        } else if self.eat_kw(Keyword::In) {
            Some(BinaryOperator::In)
        } else if self.peek_kw(Keyword::Not) && self.peek2_kw(Keyword::Like) {
            let _ = self.eat_kw(Keyword::Not);
            let _ = self.eat_kw(Keyword::Like);
            Some(BinaryOperator::NotLike)
        } else if self.peek_kw(Keyword::Not) && self.peek2_kw(Keyword::In) {
            let _ = self.eat_kw(Keyword::Not);
            let _ = self.eat_kw(Keyword::In);
            Some(BinaryOperator::NotIn)
        } else if self.eat_kw(Keyword::Is) {
            if self.eat_kw(Keyword::Not) {
                Some(BinaryOperator::IsNot)
            } else {
                Some(BinaryOperator::Is)
            }
        } else {
            None
        }
    }

    fn parse_cmp(&mut self, depth: u32) -> (r: Result<Expression, ParseError>)
        requires
            old(self).wf(),
        ensures
            final(self).wf(),
            Parser::step(*old(self), *final(self)),
            r matches Err(e) ==> parse_error_wf(e, old(self).text@),
            old(self).pos >= old(self).toks@.len() ==> r is Err,
            r is Ok ==> old(self).pos < final(self).pos,
            crate::lexer::or_and_tokens(old(self).toks@) && (old(self).pos == 0 || old(self).pos == 2
                || old(self).pos == 4) && depth > 4 ==> (r matches Ok(e) && is_column(e, or_and_col_at(old(self).pos as int)) && final(self).pos
                == old(self).pos + 1),
        decreases depth,
    {
        if depth == 0 {
            return Err(ParseError::DepthLimitExceeded);
        }
        let d = depth - 1;
        let mut e = self.parse_add(d)?;
        loop
            invariant
                self.wf(),
                Parser::step(*old(self), *self),
                d < depth,
                d + 1 == depth,
                old(self).pos < self.pos,
                crate::lexer::or_and_tokens(old(self).toks@) && (old(self).pos == 0 || old(
                    self,
                ).pos == 2 || old(self).pos == 4) && depth > 4 ==> self.pos == old(self).pos
                    + 1 && is_column(e, or_and_col_at(old(self).pos as int)),
            decreases self.toks@.len() - self.pos,
        {
            let op = match self.eat_cmp_op() {
                Some(op) => op,
                None => {
                    break;
                },
            };
            let rhs = self.parse_add(d)?;
            e = Expression::BinaryOp { left: Box::new(e), op, right: Box::new(rhs) };
        }
        Ok(e)
    }

    fn parse_add(&mut self, depth: u32) -> (r: Result<Expression, ParseError>)
        requires
            old(self).wf(),
        ensures
            final(self).wf(),
            Parser::step(*old(self), *final(self)),
            r matches Err(e) ==> parse_error_wf(e, old(self).text@),
            old(self).pos >= old(self).toks@.len() ==> r is Err,
            r is Ok ==> old(self).pos < final(self).pos,
            crate::lexer::or_and_tokens(old(self).toks@) && (old(self).pos == 0 || old(self).pos == 2
                || old(self).pos == 4) && depth > 3 ==> (r matches Ok(e) && is_column(e, or_and_col_at(old(self).pos as int)) && final(self).pos
                == old(self).pos + 1),
        decreases depth,
    {
        if depth == 0 {
            return Err(ParseError::DepthLimitExceeded);
        }
        let d = depth - 1;
        let mut e = self.parse_mul(d)?;
        loop
            invariant
                self.wf(),
                Parser::step(*old(self), *self),
                d < depth,
                d + 1 == depth,
                old(self).pos < self.pos,
                crate::lexer::or_and_tokens(old(self).toks@) && (old(self).pos == 0 || old(
                    self,
                ).pos == 2 || old(self).pos == 4) && depth > 3 ==> self.pos == old(self).pos
                    + 1 && is_column(e, or_and_col_at(old(self).pos as int)),
            decreases self.toks@.len() - self.pos,
        {
            let op = if self.eat_sym(Sym::Plus) {
                BinaryOperator::Plus
            } else if self.eat_sym(Sym::Minus) {
                BinaryOperator::Minus
            } else {
                break;
            };
            let rhs = self.parse_mul(d)?;
            e = Expression::BinaryOp { left: Box::new(e), op, right: Box::new(rhs) };
        }
        Ok(e)
    }

    fn parse_mul(&mut self, depth: u32) -> (r: Result<Expression, ParseError>)
        requires
            old(self).wf(),
        ensures
            final(self).wf(),
            Parser::step(*old(self), *final(self)),
            r matches Err(e) ==> parse_error_wf(e, old(self).text@),
            old(self).pos >= old(self).toks@.len() ==> r is Err,
            r is Ok ==> old(self).pos < final(self).pos,
            crate::lexer::or_and_tokens(old(self).toks@) && (old(self).pos == 0 || old(self).pos == 2
                || old(self).pos == 4) && depth > 2 ==> (r matches Ok(e) && is_column(e, or_and_col_at(old(self).pos as int)) && final(self).pos
                == old(self).pos + 1),
        decreases depth,
    {
        if depth == 0 {
            return Err(ParseError::DepthLimitExceeded);
        }
        let d = depth - 1;
        let mut e = self.parse_unary(d)?;
        loop
            invariant
                self.wf(),
                Parser::step(*old(self), *self),
                d < depth,
                d + 1 == depth,
                old(self).pos < self.pos,
                crate::lexer::or_and_tokens(old(self).toks@) && (old(self).pos == 0 || old(
                    self,
                ).pos == 2 || old(self).pos == 4) && depth > 2 ==> self.pos == old(self).pos
                    + 1 && is_column(e, or_and_col_at(old(self).pos as int)),
            decreases self.toks@.len() - self.pos,
        {
            let op = if self.eat_sym(Sym::Star) {
                BinaryOperator::Multiply
            } else if self.eat_sym(Sym::Slash) {
                BinaryOperator::Divide
            } else if self.eat_sym(Sym::Percent) {
                BinaryOperator::Modulus
            } else {
                break;
            };
            let rhs = self.parse_unary(d)?;
            e = Expression::BinaryOp { left: Box::new(e), op, right: Box::new(rhs) };
        }
        Ok(e)
    }

    fn parse_unary(&mut self, depth: u32) -> (r: Result<Expression, ParseError>)
        requires
            old(self).wf(),
        ensures
            final(self).wf(),
            Parser::step(*old(self), *final(self)),
            r matches Err(e) ==> parse_error_wf(e, old(self).text@),
            old(self).pos >= old(self).toks@.len() ==> r is Err,
            r is Ok ==> old(self).pos < final(self).pos,
            crate::lexer::or_and_tokens(old(self).toks@) && (old(self).pos == 0 || old(self).pos == 2
                || old(self).pos == 4) && depth > 1 ==> (r matches Ok(e) && is_column(e, or_and_col_at(old(self).pos as int)) && final(self).pos
                == old(self).pos + 1),
        decreases depth,
    {
        if depth == 0 {
            return Err(ParseError::DepthLimitExceeded);
        }
        let d = depth - 1;
        if self.eat_kw(Keyword::Not) {
            let e = self.parse_unary(d)?;
            Ok(Expression::UnaryOp { op: UnaryOperator::Not, expr: Box::new(e) })
        } else if self.eat_sym(Sym::Minus) {
            let e = self.parse_unary(d)?;
            Ok(Expression::UnaryOp { op: UnaryOperator::Minus, expr: Box::new(e) })
        } else {
            self.parse_primary(d)
        }
    }

    /// A CASE expression: the simple form (with an operand) or the searched
    /// form (WHEN predicates only); the CASE keyword is already consumed.
    fn parse_case(&mut self, depth: u32) -> (r: Result<Expression, ParseError>)
        requires
            old(self).wf(),
        ensures
            final(self).wf(),
            Parser::step(*old(self), *final(self)),
            r matches Err(e) ==> parse_error_wf(e, old(self).text@),
        decreases depth,
    {
        if depth == 0 {
            return Err(ParseError::DepthLimitExceeded);
        }
        let d = depth - 1;
        let operand = if self.peek_kw(Keyword::When) {
            None
        } else {
            let e = self.parse_expr(d)?;
            Some(Box::new(e))
        };
        let mut conditions: Vec<Expression> = Vec::new();
        let mut results: Vec<Expression> = Vec::new();
        self.expect_kw(Keyword::When, "WHEN")?;
        let c0 = self.parse_expr(d)?;
        self.expect_kw(Keyword::Then, "THEN")?;
        let r0 = self.parse_expr(d)?;
        conditions.push(c0);
        results.push(r0);
        while self.eat_kw(Keyword::When)
            invariant
                self.wf(),
                Parser::step(*old(self), *self),
                d < depth,
            decreases self.toks@.len() - self.pos,
        {
            let c = self.parse_expr(d)?;
            self.expect_kw(Keyword::Then, "THEN")?;
            let rr = self.parse_expr(d)?;
            conditions.push(c);
            results.push(rr);
        }
        let else_result = if self.eat_kw(Keyword::Else) {
            let e = self.parse_expr(d)?;
            Some(Box::new(e))
        } else {
            None
        };
        self.expect_kw(Keyword::End, "END")?;
        Ok(Expression::Case { operand, conditions, results, else_result })
    }

    /// A primary expression: literal, column, function call, parenthesized
    /// expression or scalar subquery, CASE, CAST, EXISTS, or `*`.
    fn parse_primary(&mut self, depth: u32) -> (r: Result<Expression, ParseError>)
        requires
            old(self).wf(),
        ensures
            final(self).wf(),
            Parser::step(*old(self), *final(self)),
            r matches Err(e) ==> parse_error_wf(e, old(self).text@),
            old(self).pos >= old(self).toks@.len() ==> r is Err,
            r is Ok ==> old(self).pos < final(self).pos,
            crate::lexer::or_and_tokens(old(self).toks@) && (old(self).pos == 0 || old(self).pos == 2
                || old(self).pos == 4) && depth > 0 ==> (r matches Ok(e) && is_column(e, or_and_col_at(old(self).pos as int)) && final(self).pos
                == old(self).pos + 1),
        decreases depth,
    {
        if depth == 0 {
            return Err(ParseError::DepthLimitExceeded);
        }
        let d = depth - 1;
        if self.eat_sym(Sym::Star) {
            return Ok(Expression::Wildcard);
        }
        if self.eat_kw(Keyword::Case) {
            let e = self.parse_case(d)?;
            return Ok(e);
        }
        if self.eat_kw(Keyword::Cast) {
            self.expect_sym(Sym::LParen, "(")?;
            let e = self.parse_expr(d)?;
            self.expect_kw(Keyword::As, "AS")?;
            let dt = self.parse_data_type()?;
            if !self.eat_sym(Sym::RParen) {
                return Err(ParseError::UnbalancedDelimiter { offset: self.cur_offset() });
            }
            return Ok(Expression::Cast { expr: Box::new(e), data_type: dt });
        }
        if self.eat_kw(Keyword::Exists) {
            self.expect_sym(Sym::LParen, "(")?;
            let q = self.parse_select_statement(d)?;
            if !self.eat_sym(Sym::RParen) {
                return Err(ParseError::UnbalancedDelimiter { offset: self.cur_offset() });
            }
            return Ok(Expression::Exists { subquery: Box::new(q) });
        }
        if self.eat_sym(Sym::LParen) {
            if self.peek_kw(Keyword::Select) {
                let q = self.parse_select_statement(d)?;
                if !self.eat_sym(Sym::RParen) {
                    return Err(ParseError::UnbalancedDelimiter { offset: self.cur_offset() });
                }
                return Ok(Expression::Select { subquery: Box::new(q) });
            }
            let e = self.parse_expr(d)?;
            if !self.eat_sym(Sym::RParen) {
                return Err(ParseError::UnbalancedDelimiter { offset: self.cur_offset() });
            }
            return Ok(e);
        }
        if self.peek_ident() {
            let name = self.expect_ident("identifier")?;
            if self.eat_sym(Sym::LParen) {
                let mut args: Vec<Expression> = Vec::new();
                if self.eat_sym(Sym::RParen) {
                    return Ok(Expression::Function { name, args });
                }
                let a0 = self.parse_expr(d)?;
                args.push(a0);
                while self.eat_sym(Sym::Comma)
                    invariant
                        self.wf(),
                        Parser::step(*old(self), *self),
                        old(self).pos < self.pos,
                        d < depth,
                    decreases self.toks@.len() - self.pos,
                {
                    let a = self.parse_expr(d)?;
                    args.push(a);
                }
                if !self.eat_sym(Sym::RParen) {
                    return Err(ParseError::UnbalancedDelimiter { offset: self.cur_offset() });
                }
                return Ok(Expression::Function { name, args });
            }
            return Ok(Expression::Column { name });
        }
        match self.parse_value() {
            Ok(v) => Ok(Expression::Literal { value: v }),
            Err(_) => Err(self.err_expected("expression")),
        }
    }

    /// The projection list of a SELECT: `*`, expressions, optional aliases.
    fn parse_select_items(&mut self, depth: u32) -> (r: Result<Vec<SelectItem>, ParseError>)
        requires
            old(self).wf(),
        ensures
            final(self).wf(),
            Parser::step(*old(self), *final(self)),
            r matches Err(e) ==> parse_error_wf(e, old(self).text@),
            r matches Ok(items) ==> items@.len() > 0,
            old(self).pos < old(self).toks@.len() && old(self).toks@[old(self).pos as int].kind
                == TokenKind::Kw(Keyword::From) && depth > 0 ==> (r matches Err(e) && e matches
                ParseError::MissingClause { offset, clause } && offset == old(self).toks@[old(
                self,
            ).pos as int].start && clause@ == "projection"@),
            crate::lexer::select_star_tokens(old(self).toks@) && old(self).pos == 1 && depth > 1
                ==> (r matches Ok(items) && items@.len() == 1 && items@[0]
                == SelectItem::Wildcard && final(self).pos == 2),
        decreases depth,
    {
        if depth == 0 {
            return Err(ParseError::DepthLimitExceeded);
        }
        let d = depth - 1;
        if self.at_end() || self.peek_kw(Keyword::From) {
            return Err(
                ParseError::MissingClause {
                    offset: self.cur_offset(),
                    clause: String::from_str("projection"),
                },
            );
        }
        let mut items: Vec<SelectItem> = Vec::new();
        let first = self.parse_select_item(d)?;
        items.push(first);
        while self.eat_sym(Sym::Comma)
            invariant
                self.wf(),
                Parser::step(*old(self), *self),
                d < depth,
                items@.len() > 0,
                !(old(self).pos < old(self).toks@.len() && old(self).toks@[old(
                    self,
                ).pos as int].kind == TokenKind::Kw(Keyword::From)),
                crate::lexer::select_star_tokens(old(self).toks@) && old(self).pos == 1 && d > 0
                    ==> self.pos == 2 && items@.len() == 1 && items@[0] == SelectItem::Wildcard,
            decreases self.toks@.len() - self.pos,
        {
            let it = self.parse_select_item(d)?;
            items.push(it);
        }
        Ok(items)
    }

    fn parse_select_item(&mut self, depth: u32) -> (r: Result<SelectItem, ParseError>)
        requires
            old(self).wf(),
        ensures
            final(self).wf(),
            Parser::step(*old(self), *final(self)),
            r matches Err(e) ==> parse_error_wf(e, old(self).text@),
            old(self).pos < old(self).toks@.len() && old(self).toks@[old(self).pos as int].kind
                == TokenKind::Sym(Sym::Star) && depth > 0 ==> (r matches Ok(it) && it
                == SelectItem::Wildcard && final(self).pos == old(self).pos + 1),
        decreases depth,
    {
        if depth == 0 {
            return Err(ParseError::DepthLimitExceeded);
        }
        let d = depth - 1;
        if self.eat_sym(Sym::Star) {
            return Ok(SelectItem::Wildcard);
        }
        let e = self.parse_expr(d)?;
        if self.eat_kw(Keyword::As) {
            let alias = self.expect_ident("alias")?;
            Ok(SelectItem::ExprWithAlias { expr: e, alias })
        } else {
            Ok(SelectItem::UnnamedExpr(e))
        }
    }

    /// One FROM source without joins: a table name with an optional alias,
    /// or a parenthesized subquery with a required alias.
    fn parse_from_base(&mut self, depth: u32) -> (r: Result<FromItem, ParseError>)
        requires
            old(self).wf(),
        ensures
            final(self).wf(),
            Parser::step(*old(self), *final(self)),
            r matches Err(e) ==> parse_error_wf(e, old(self).text@),
            crate::lexer::select_star_tokens(old(self).toks@) && old(self).pos == 3 && depth > 0
                ==> (r matches Ok(f) && is_table_t(f) && final(self).pos == 4),
        decreases depth,
    {
        if depth == 0 {
            return Err(ParseError::DepthLimitExceeded);
        }
        let d = depth - 1;
        if self.eat_sym(Sym::LParen) {
            let q = self.parse_select_statement(d)?;
            if !self.eat_sym(Sym::RParen) {
                return Err(ParseError::UnbalancedDelimiter { offset: self.cur_offset() });
            }
            let _ = self.eat_kw(Keyword::As);
            let alias = self.expect_ident("subquery alias")?;
            return Ok(FromItem::Subquery { query: Box::new(q), alias });
        }
        let name = self.expect_ident("table name")?;
        let alias = if self.eat_kw(Keyword::As) {
            let a = self.expect_ident("alias")?;
            Some(a)
        } else if self.peek_ident() {
            let a = self.expect_ident("alias")?;
            Some(a)
        } else {
            None
        };
        Ok(FromItem::Table { name, alias })
    }

    /// The join operator at the cursor, if any; consumes through `JOIN`.
    fn eat_join_op(&mut self) -> (r: Result<Option<JoinOperator>, ParseError>)
        requires
            old(self).wf(),
        ensures
            final(self).wf(),
            Parser::step(*old(self), *final(self)),
            r matches Err(e) ==> parse_error_wf(e, old(self).text@),
            r matches Ok(o) && o is Some ==> old(self).pos < final(self).pos && old(self).pos
                < old(self).toks@.len(),
            r matches Ok(o) && o is None ==> final(self).pos == old(self).pos,
            old(self).pos >= old(self).toks@.len() ==> (r matches Ok(o) && o is None),
    {
        if self.eat_kw(Keyword::Join) {
            Ok(Some(JoinOperator::Inner))
        } else if self.eat_kw(Keyword::Inner) {
            self.expect_kw(Keyword::Join, "JOIN")?;
            Ok(Some(JoinOperator::Inner))
        } else if self.eat_kw(Keyword::Left) {
            let _ = self.eat_kw(Keyword::Outer);
            self.expect_kw(Keyword::Join, "JOIN")?;
            Ok(Some(JoinOperator::LeftOuter))
        } else if self.eat_kw(Keyword::Right) {
            let _ = self.eat_kw(Keyword::Outer);
            self.expect_kw(Keyword::Join, "JOIN")?;
            Ok(Some(JoinOperator::RightOuter))
        } else if self.eat_kw(Keyword::Full) {
            let _ = self.eat_kw(Keyword::Outer);
            self.expect_kw(Keyword::Join, "JOIN")?;
            Ok(Some(JoinOperator::FullOuter))
        } else {
            Ok(None)
        }
    }

    /// One FROM source with any joins chained onto it, left-associatively.
    fn parse_from_item(&mut self, depth: u32) -> (r: Result<FromItem, ParseError>)
        requires
            old(self).wf(),
        ensures
            final(self).wf(),
            Parser::step(*old(self), *final(self)),
            r matches Err(e) ==> parse_error_wf(e, old(self).text@),
            crate::lexer::select_star_tokens(old(self).toks@) && old(self).pos == 3 && depth > 1
                ==> (r matches Ok(f) && is_table_t(f) && final(self).pos == 4),
        decreases depth,
    {
        if depth == 0 {
            return Err(ParseError::DepthLimitExceeded);
        }
        let d = depth - 1;
        let mut item = self.parse_from_base(d)?;
        loop
            invariant
                self.wf(),
                Parser::step(*old(self), *self),
                d < depth,
                d + 1 == depth,
                crate::lexer::select_star_tokens(old(self).toks@) && old(self).pos == 3 && d > 0
                    ==> self.pos == 4 && is_table_t(item),
            decreases self.toks@.len() - self.pos,
        {
            let op = match self.eat_join_op()? {
                Some(op) => op,
                None => {
                    break;
                },
            };
            let right = self.parse_from_base(d)?;
            let constraint = if self.eat_kw(Keyword::On) {
                let e = self.parse_expr(d)?;
                Some(JoinConstraint::On(e))
            } else if self.eat_kw(Keyword::Using) {
                self.expect_sym(Sym::LParen, "(")?;
                let cols = self.parse_name_list()?;
                if !self.eat_sym(Sym::RParen) {
                    return Err(ParseError::UnbalancedDelimiter { offset: self.cur_offset() });
                }
                Some(JoinConstraint::Using(cols))
            } else {
                None
            };
            item = FromItem::Join {
                left: Box::new(item),
                right: Box::new(right),
                join_operator: op,
                join_constraint: constraint,
            };
        }
        Ok(item)
    }

    fn parse_from_items(&mut self, depth: u32) -> (r: Result<Vec<FromItem>, ParseError>)
        requires
            old(self).wf(),
        ensures
            final(self).wf(),
            Parser::step(*old(self), *final(self)),
            r matches Err(e) ==> parse_error_wf(e, old(self).text@),
            r matches Ok(fs) ==> fs@.len() > 0,
            crate::lexer::select_star_tokens(old(self).toks@) && old(self).pos == 3 && depth > 2
                ==> (r matches Ok(fs) && fs@.len() == 1 && is_table_t(fs@[0]) && final(self).pos
                == 4),
        decreases depth,
    {
        if depth == 0 {
            return Err(ParseError::DepthLimitExceeded);
        }
        let d = depth - 1;
        let mut items: Vec<FromItem> = Vec::new();
        let first = self.parse_from_item(d)?;
        items.push(first);
        while self.eat_sym(Sym::Comma)
            invariant
                self.wf(),
                Parser::step(*old(self), *self),
                d < depth,
                d + 1 == depth,
                items@.len() > 0,
                crate::lexer::select_star_tokens(old(self).toks@) && old(self).pos == 3 && d > 1
                    ==> self.pos == 4 && items@.len() == 1 && is_table_t(items@[0]),
            decreases self.toks@.len() - self.pos,
        {
            let it = self.parse_from_item(d)?;
            items.push(it);
        }
        Ok(items)
    }

    /// The ORDER BY sort keys; `ORDER BY` itself is already consumed.
    fn parse_order_list(&mut self, depth: u32) -> (r: Result<Vec<OrderByExpr>, ParseError>)
        requires
            old(self).wf(),
        ensures
            final(self).wf(),
            Parser::step(*old(self), *final(self)),
            r matches Err(e) ==> parse_error_wf(e, old(self).text@),
        decreases depth,
    {
        if depth == 0 {
            return Err(ParseError::DepthLimitExceeded);
        }
        let d = depth - 1;
        let mut items: Vec<OrderByExpr> = Vec::new();
        loop
            invariant
                self.wf(),
                Parser::step(*old(self), *self),
                d < depth,
            decreases self.toks@.len() - self.pos,
        {
            let e = self.parse_expr(d)?;
            // ascending unless DESC is written
            let asc = if self.eat_kw(Keyword::Desc) {
                false
            } else {
                let _ = self.eat_kw(Keyword::Asc);
                true
            };
            items.push(OrderByExpr { expr: e, asc });
            if !self.eat_sym(Sym::Comma) {
                break;
            }
        }
        Ok(items)
    }

    /// A full SELECT statement, starting at the SELECT keyword.
    fn parse_select_statement(&mut self, depth: u32) -> (r: Result<Statement, ParseError>)
        requires
            old(self).wf(),
        ensures
            final(self).wf(),
            Parser::step(*old(self), *final(self)),
            r matches Err(e) ==> parse_error_wf(e, old(self).text@),
            r matches Ok(s) ==> s is Select,
            old(self).toks@.len() == 2 && old(self).toks@[0].kind == TokenKind::Kw(
                Keyword::Select,
            ) && old(self).toks@[1].kind == TokenKind::Kw(Keyword::From) && old(self).pos == 0
                && depth > 1 ==> (r matches Err(e) && e matches ParseError::MissingClause {
                offset,
                clause,
            } && offset == old(self).toks@[1].start && clause@ == "projection"@),
            crate::lexer::select_star_tokens(old(self).toks@) && old(self).pos == 0 && depth > 3
                ==> (r matches Ok(st) && select_defaults_example(st) && final(self).pos == 4),
        decreases depth,
    {
        if depth == 0 {
            return Err(ParseError::DepthLimitExceeded);
        }
        let d = depth - 1;
        self.expect_kw(Keyword::Select, "SELECT")?;
        let distinct = self.eat_kw(Keyword::Distinct);
        let projection = self.parse_select_items(d)?;
        self.expect_kw(Keyword::From, "FROM")?;
        let from = self.parse_from_items(d)?;
        let selection = if self.eat_kw(Keyword::Where) {
            let e = self.parse_expr(d)?;
            Some(Box::new(e))
        } else {
            None
        };
        let group_by = if self.eat_kw(Keyword::Group) {
            self.expect_kw(Keyword::By, "BY")?;
            self.parse_expr_list(d)?
        } else {
            Vec::new()
        };
        let having = if self.eat_kw(Keyword::Having) {
            let e = self.parse_expr(d)?;
            Some(Box::new(e))
        } else {
            None
        };
        let order_by = if self.eat_kw(Keyword::Order) {
            self.expect_kw(Keyword::By, "BY")?;
            self.parse_order_list(d)?
        } else {
            Vec::new()
        };
        let limit = if self.eat_kw(Keyword::Limit) {
            let e = self.parse_expr(d)?;
            Some(Box::new(e))
        } else {
            None
        };
        let offset = if self.eat_kw(Keyword::Offset) {
            let e = self.parse_expr(d)?;
            Some(Box::new(e))
        } else {
            None
        };
        Ok(
            Statement::Select {
                distinct,
                projection,
                from,
                selection,
                group_by,
                having,
                order_by,
                limit,
                offset,
            },
        )
    }

    /// The assignments of UPDATE or an edge property list: `id = expr, ...`.
    fn parse_assignments(&mut self, depth: u32) -> (r: Result<Vec<Assignment>, ParseError>)
        requires
            old(self).wf(),
        ensures
            final(self).wf(),
            Parser::step(*old(self), *final(self)),
            r matches Err(e) ==> parse_error_wf(e, old(self).text@),
            r matches Ok(a) ==> a@.len() > 0,
        decreases depth,
    {
        if depth == 0 {
            return Err(ParseError::DepthLimitExceeded);
        }
        let d = depth - 1;
        let mut assigns: Vec<Assignment> = Vec::new();
        let id0 = self.expect_ident("column name")?;
        self.expect_sym(Sym::Eq, "=")?;
        let v0 = self.parse_expr(d)?;
        assigns.push(Assignment { id: id0, value: v0 });
        while self.eat_sym(Sym::Comma)
            invariant
                self.wf(),
                Parser::step(*old(self), *self),
                d < depth,
                assigns@.len() > 0,
            decreases self.toks@.len() - self.pos,
        {
            let id = self.expect_ident("column name")?;
            self.expect_sym(Sym::Eq, "=")?;
            let v = self.parse_expr(d)?;
            assigns.push(Assignment { id, value: v });
        }
        Ok(assigns)
    }

    /// An INSERT statement, after the INSERT keyword.
    fn parse_insert(&mut self, depth: u32) -> (r: Result<Statement, ParseError>)
        requires
            old(self).wf(),
        ensures
            final(self).wf(),
            Parser::step(*old(self), *final(self)),
            r matches Err(e) ==> parse_error_wf(e, old(self).text@),
        decreases depth,
    {
        if depth == 0 {
            return Err(ParseError::DepthLimitExceeded);
        }
        let d = depth - 1;
        self.expect_kw(Keyword::Into, "INTO")?;
        let table_name = self.expect_ident("table name")?;
        let mut columns: Vec<String> = Vec::new();
        if self.eat_sym(Sym::LParen) {
            columns = self.parse_name_list()?;
            if !self.eat_sym(Sym::RParen) {
                return Err(ParseError::UnbalancedDelimiter { offset: self.cur_offset() });
            }
        }
        let mut values: Vec<Vec<Expression>> = Vec::new();
        let mut select: Option<Box<Statement>> = None;
        if self.eat_kw(Keyword::Values) {
            loop
                invariant
                    self.wf(),
                    Parser::step(*old(self), *self),
                decreases self.toks@.len() - self.pos,
            {
                self.expect_sym(Sym::LParen, "(")?;
                let row = self.parse_expr_list(d)?;
                if !self.eat_sym(Sym::RParen) {
                    return Err(ParseError::UnbalancedDelimiter { offset: self.cur_offset() });
                }
                values.push(row);
                if !self.eat_sym(Sym::Comma) {
                    break;
                }
            }
        } else if self.peek_kw(Keyword::Select) {
            let q = self.parse_select_statement(d)?;
            select = Some(Box::new(q));
        } else {
            return Err(self.err_expected("VALUES or SELECT"));
        }
        let on_conflict = if self.eat_kw(Keyword::On) {
            self.expect_kw(Keyword::Conflict, "CONFLICT")?;
            self.expect_kw(Keyword::Do, "DO")?;
            if self.eat_kw(Keyword::Nothing) {
                Some(OnConflict::DoNothing)
            } else {
                self.expect_kw(Keyword::Update, "UPDATE")?;
                self.expect_kw(Keyword::SetKw, "SET")?;
                let assigns = self.parse_assignments(d)?;
                Some(OnConflict::DoUpdate(assigns))
            }
        } else {
            None
        };
        Ok(Statement::Insert { table_name, columns, values, select, on_conflict })
    }

    /// One element of a CREATE TABLE list: a column definition or a
    /// table-level constraint.
    fn parse_table_element(
        &mut self,
        depth: u32,
        columns: &mut Vec<Column>,
        constraints: &mut Vec<Constraint>,
    ) -> (r: Result<(), ParseError>)
        requires
            old(self).wf(),
        ensures
            final(self).wf(),
            Parser::step(*old(self), *final(self)),
            r matches Err(e) ==> parse_error_wf(e, old(self).text@),
        decreases depth,
    {
        if depth == 0 {
            return Err(ParseError::DepthLimitExceeded);
        }
        let d = depth - 1;
        if self.eat_kw(Keyword::Primary) {
            self.expect_kw(Keyword::Key, "KEY")?;
            self.expect_sym(Sym::LParen, "(")?;
            let cols = self.parse_name_list()?;
            if !self.eat_sym(Sym::RParen) {
                return Err(ParseError::UnbalancedDelimiter { offset: self.cur_offset() });
            }
            constraints.push(Constraint::PrimaryKey(cols));
            return Ok(());
        }
        if self.eat_kw(Keyword::Unique) {
            self.expect_sym(Sym::LParen, "(")?;
            let cols = self.parse_name_list()?;
            if !self.eat_sym(Sym::RParen) {
                return Err(ParseError::UnbalancedDelimiter { offset: self.cur_offset() });
            }
            constraints.push(Constraint::Unique(cols));
            return Ok(());
        }
        if self.eat_kw(Keyword::Check) {
            self.expect_sym(Sym::LParen, "(")?;
            let e = self.parse_expr(d)?;
            if !self.eat_sym(Sym::RParen) {
                return Err(ParseError::UnbalancedDelimiter { offset: self.cur_offset() });
            }
            constraints.push(Constraint::Check(e));
            return Ok(());
        }
        let c = self.parse_column_def(d)?;
        columns.push(c);
        Ok(())
    }

    /// A column definition: name, data type, then any of PRIMARY KEY,
    /// UNIQUE, NOT NULL, NULL and DEFAULT in any order.
    fn parse_column_def(&mut self, depth: u32) -> (r: Result<Column, ParseError>)
        requires
            old(self).wf(),
        ensures
            final(self).wf(),
            Parser::step(*old(self), *final(self)),
            r matches Err(e) ==> parse_error_wf(e, old(self).text@),
        decreases depth,
    {
        if depth == 0 {
            return Err(ParseError::DepthLimitExceeded);
        }
        let d = depth - 1;
        let name = self.expect_ident("column name")?;
        let data_type = self.parse_data_type()?;
        let mut nullable = true;
        let mut default: Option<Expression> = None;
        let mut constraint_type: Option<ConstraintType> = None;
        loop
            invariant
                self.wf(),
                Parser::step(*old(self), *self),
                d < depth,
            decreases self.toks@.len() - self.pos,
        {
            if self.eat_kw(Keyword::Primary) {
                self.expect_kw(Keyword::Key, "KEY")?;
                constraint_type = Some(ConstraintType::PrimaryKey);
                nullable = false;
            } else if self.eat_kw(Keyword::Unique) {
                constraint_type = Some(ConstraintType::Unique);
            } else if self.peek_kw(Keyword::Not) && self.peek2_kw(Keyword::Null) {
                let _ = self.eat_kw(Keyword::Not);
                let _ = self.eat_kw(Keyword::Null);
                nullable = false;
            } else if self.eat_kw(Keyword::Null) {
                nullable = true;
            } else if self.eat_kw(Keyword::DefaultKw) {
                let e = self.parse_expr(d)?;
                default = Some(e);
            } else {
                break;
            }
        }
        Ok(
            Column {
                name,
                data_type,
                nullable,
                default,
                options: Vec::new(),
                constraint_type,
                constraint_enforced: true,
            },
        )
    }

    /// The DDL object kind after CREATE/ALTER/DROP/RENAME; an unknown word
    /// is the unsupported-object-type error.
    fn parse_object_type(&mut self) -> (r: Result<ObjectType, ParseError>)
        requires
            old(self).wf(),
        ensures
            final(self).wf(),
            Parser::step(*old(self), *final(self)),
            r matches Err(e) ==> parse_error_wf(e, old(self).text@),
    {
        if self.eat_kw(Keyword::Table) {
            Ok(ObjectType::Table)
        } else if self.eat_kw(Keyword::Index) {
            Ok(ObjectType::Index)
        } else if self.eat_kw(Keyword::View) {
            Ok(ObjectType::View)
        } else if self.eat_kw(Keyword::Model) {
            Ok(ObjectType::Model)
        } else if self.eat_kw(Keyword::Viz) {
            Ok(ObjectType::Viz)
        } else {
            Err(ParseError::UnsupportedObjectType { offset: self.cur_offset() })
        }
    }

    /// A CREATE statement, after the CREATE keyword: table-like objects,
    /// models, visualizations or graph edges.
    fn parse_create(&mut self, depth: u32) -> (r: Result<Statement, ParseError>)
        requires
            old(self).wf(),
        ensures
            final(self).wf(),
            Parser::step(*old(self), *final(self)),
            r matches Err(e) ==> parse_error_wf(e, old(self).text@),
        decreases depth,
    {
        if depth == 0 {
            return Err(ParseError::DepthLimitExceeded);
        }
        let d = depth - 1;
        if self.eat_kw(Keyword::Edge) {
            self.expect_kw(Keyword::From, "FROM")?;
            let from = self.parse_expr_list(d)?;
            self.expect_kw(Keyword::To, "TO")?;
            let to = self.parse_expr_list(d)?;
            let edge = if self.eat_kw(Keyword::Via) {
                self.parse_expr_list(d)?
            } else {
                Vec::new()
            };
            let properties = if self.eat_kw(Keyword::SetKw) {
                self.parse_assignments(d)?
            } else {
                Vec::new()
            };
            return Ok(Statement::CreateEdge { from, to, edge, properties });
        }
        if self.eat_kw(Keyword::Model) {
            let name = self.expect_ident("model name")?;
            self.expect_kw(Keyword::TypeKw, "TYPE")?;
            let model_type = if self.eat_kw(Keyword::Regression) {
                ModelType::Regression
            } else if self.eat_kw(Keyword::Classification) {
                ModelType::Classification
            } else if self.eat_kw(Keyword::Clustering) {
                ModelType::Clustering
            } else {
                return Err(self.err_expected("model type"));
            };
            let options = self.parse_with_options()?;
            return Ok(Statement::CreateModel { name, model_type, options });
        }
        if self.eat_kw(Keyword::Viz) {
            let name = self.expect_ident("visualization name")?;
            self.expect_kw(Keyword::TypeKw, "TYPE")?;
            let viz_type = if self.eat_kw(Keyword::Bar) {
                VizType::Bar
            } else if self.eat_kw(Keyword::Line) {
                VizType::Line
            } else if self.eat_kw(Keyword::Scatter) {
                VizType::Scatter
            } else if self.eat_kw(Keyword::Pie) {
                VizType::Pie
            } else {
                return Err(self.err_expected("visualization type"));
            };
            let options = self.parse_with_options()?;
            return Ok(Statement::CreateViz { name, viz_type, options });
        }
        let object_type = self.parse_object_type()?;
        let if_not_exists = if self.eat_kw(Keyword::If) {
            self.expect_kw(Keyword::Not, "NOT")?;
            self.expect_kw(Keyword::Exists, "EXISTS")?;
            true
        } else {
            false
        };
        let name = self.expect_ident("object name")?;
        let mut columns: Vec<Column> = Vec::new();
        let mut constraints: Vec<Constraint> = Vec::new();
        if self.eat_sym(Sym::LParen) {
            loop
                invariant
                    self.wf(),
                    Parser::step(*old(self), *self),
                decreases self.toks@.len() - self.pos,
            {
                self.parse_table_element(d, &mut columns, &mut constraints)?;
                if !self.eat_sym(Sym::Comma) {
                    break;
                }
            }
            if !self.eat_sym(Sym::RParen) {
                return Err(ParseError::UnbalancedDelimiter { offset: self.cur_offset() });
            }
        }
        let options = self.parse_with_options()?;
        Ok(
            Statement::Create {
                object_type,
                if_not_exists,
                name,
                columns,
                constraints,
                options,
                with: None,
            },
        )
    }

    /// A version or savepoint tail shared by ROLLBACK and TIMETRAVEL.
    fn parse_version_savepoint(&mut self) -> (r: Result<
        (Option<String>, Option<String>),
        ParseError,
    >)
        requires
            old(self).wf(),
        ensures
            final(self).wf(),
            Parser::step(*old(self), *final(self)),
            r matches Err(e) ==> parse_error_wf(e, old(self).text@),
            r matches Ok(p) ==> crate::validate::opt_name_ok(p.0) && crate::validate::opt_name_ok(
                p.1,
            ),
    {
        let version = if self.eat_kw(Keyword::Version) {
            let v = self.expect_ident("version")?;
            Some(v)
        } else {
            None
        };
        let savepoint = if self.eat_kw(Keyword::Savepoint) {
            let s = self.expect_ident("savepoint name")?;
            Some(s)
        } else {
            None
        };
        Ok((version, savepoint))
    }

    /// The statement dispatcher: resolves the leading keyword and hands off
    /// to the matching statement builder.
    fn parse_statement(&mut self, depth: u32) -> (r: Result<Statement, ParseError>)
        requires
            old(self).wf(),
        ensures
            final(self).wf(),
            Parser::step(*old(self), *final(self)),
            r matches Err(e) ==> parse_error_wf(e, old(self).text@),
            old(self).pos >= old(self).toks@.len() ==> r is Err,
            old(self).toks@.len() == 1 && old(self).toks@[0].kind == TokenKind::Kw(
                Keyword::Commit,
            ) && old(self).pos == 0 && depth > 0 ==> (r matches Ok(st) && st
                == Statement::Commit && final(self).pos == 1),
            old(self).toks@.len() == 1 && old(self).toks@[0].kind == TokenKind::Kw(Keyword::End)
                && old(self).pos == 0 && depth > 0 ==> (r matches Ok(st) && st == Statement::End
                && final(self).pos == 1),
            old(self).toks@.len() == 2 && old(self).toks@[0].kind == TokenKind::Kw(
                Keyword::Select,
            ) && old(self).toks@[1].kind == TokenKind::Kw(Keyword::From) && old(self).pos == 0
                && depth > 2 ==> (r matches Err(e) && e matches ParseError::MissingClause {
                offset,
                clause,
            } && offset == old(self).toks@[1].start && clause@ == "projection"@),
            crate::lexer::select_star_tokens(old(self).toks@) && old(self).pos == 0 && depth > 4
                ==> (r matches Ok(st) && select_defaults_example(st) && final(self).pos == 4),
        decreases depth,
    {
        if depth == 0 {
            return Err(ParseError::DepthLimitExceeded);
        }
        let d = depth - 1;
        if self.peek_kw(Keyword::Select) {
            return self.parse_select_statement(d);
        }
        if self.eat_kw(Keyword::Commit) {
            return Ok(Statement::Commit);
        }
        if self.eat_kw(Keyword::End) {
            return Ok(Statement::End);
        }
        self.parse_other_statement(d)
    }

    /// The statement families other than SELECT and the two bare
    /// transaction keywords, routed on their leading keywords.
    fn parse_other_statement(&mut self, depth: u32) -> (r: Result<Statement, ParseError>)
        requires
            old(self).wf(),
        ensures
            final(self).wf(),
            Parser::step(*old(self), *final(self)),
            r matches Err(e) ==> parse_error_wf(e, old(self).text@),
            old(self).pos >= old(self).toks@.len() ==> r is Err,
        decreases depth,
    {
        if depth == 0 {
            return Err(ParseError::DepthLimitExceeded);
        }
        let d = depth - 1;
        if self.eat_kw(Keyword::Insert) {
            return self.parse_insert(d);
        }
        if self.eat_kw(Keyword::Update) {
            let table_name = self.expect_ident("table name")?;
            self.expect_kw(Keyword::SetKw, "SET")?;
            let assignments = self.parse_assignments(d)?;
            let selection = if self.eat_kw(Keyword::Where) {
                let e = self.parse_expr(d)?;
                Some(Box::new(e))
            } else {
                None
            };
            return Ok(Statement::Update { table_name, assignments, selection });
        }
        if self.eat_kw(Keyword::Delete) {
            if self.eat_kw(Keyword::Edge) {
                self.expect_kw(Keyword::From, "FROM")?;
                let from = self.parse_expr_list(d)?;
                self.expect_kw(Keyword::To, "TO")?;
                let to = self.parse_expr_list(d)?;
                let edge = if self.eat_kw(Keyword::Via) {
                    self.parse_expr_list(d)?
                } else {
                    Vec::new()
                };
                return Ok(Statement::DeleteEdge { from, to, edge });
            }
            self.expect_kw(Keyword::From, "FROM")?;
            let table_name = self.expect_ident("table name")?;
            let selection = if self.eat_kw(Keyword::Where) {
                let e = self.parse_expr(d)?;
                Some(Box::new(e))
            } else {
                None
            };
            return Ok(Statement::Delete { table_name, selection });
        }
        if self.eat_kw(Keyword::Create) {
            return self.parse_create(d);
        }
        if self.eat_kw(Keyword::Alter) {
            if self.eat_kw(Keyword::Viz) {
                let name = self.expect_ident("visualization name")?;
                let options = self.parse_with_options()?;
                return Ok(Statement::AlterViz { name, options });
            }
            let object_type = self.parse_object_type()?;
            let name = self.expect_ident("object name")?;
            let operation = if self.eat_kw(Keyword::Add) {
                self.expect_kw(Keyword::Column, "COLUMN")?;
                let c = self.parse_column_def(d)?;
                AlterOperation::AddColumn(c)
            } else if self.eat_kw(Keyword::Drop) {
                self.expect_kw(Keyword::Column, "COLUMN")?;
                let col = self.expect_ident("column name")?;
                AlterOperation::DropColumn(col)
            } else if self.eat_kw(Keyword::Rename) {
                self.expect_kw(Keyword::Column, "COLUMN")?;
                let old_name = self.expect_ident("column name")?;
                self.expect_kw(Keyword::To, "TO")?;
                let new_name = self.expect_ident("column name")?;
                AlterOperation::RenameColumn { old_name, new_name }
            } else {
                return Err(self.err_expected("ADD, DROP or RENAME"));
            };
            return Ok(Statement::Alter { object_type, name, operation });
        }
        if self.eat_kw(Keyword::Drop) {
            if self.eat_kw(Keyword::Viz) {
                let name = self.expect_ident("visualization name")?;
                return Ok(Statement::DropViz { name });
            }
            let object_type = self.parse_object_type()?;
            let if_exists = if self.eat_kw(Keyword::If) {
                self.expect_kw(Keyword::Exists, "EXISTS")?;
                true
            } else {
                false
            };
            let name = self.expect_ident("object name")?;
            let cascade = self.eat_kw(Keyword::Cascade);
            return Ok(Statement::Drop { object_type, if_exists, name, cascade });
        }
        if self.eat_kw(Keyword::Truncate) {
            let _ = self.eat_kw(Keyword::Table);
            let table_name = self.expect_ident("table name")?;
            return Ok(Statement::Truncate { table_name });
        }
        if self.eat_kw(Keyword::Rename) {
            let object_type = self.parse_object_type()?;
            let name = self.expect_ident("object name")?;
            self.expect_kw(Keyword::To, "TO")?;
            let new_name = self.expect_ident("new name")?;
            return Ok(Statement::Rename { object_type, name, new_name });
        }
        if self.eat_kw(Keyword::Grant) {
            let privilege = self.parse_privilege()?;
            self.expect_kw(Keyword::On, "ON")?;
            let object_type = self.parse_object_type()?;
            let on_name = self.expect_ident("object name")?;
            self.expect_kw(Keyword::To, "TO")?;
            let to_name = self.expect_ident("principal")?;
            return Ok(Statement::Grant { privilege, object_type, on_name, to_name });
        }
        if self.eat_kw(Keyword::Revoke) {
            let privilege = self.parse_privilege()?;
            self.expect_kw(Keyword::On, "ON")?;
            let object_type = self.parse_object_type()?;
            let on_name = self.expect_ident("object name")?;
            self.expect_kw(Keyword::From, "FROM")?;
            let from_name = self.expect_ident("principal")?;
            return Ok(Statement::Revoke { privilege, object_type, on_name, from_name });
        }
        if self.eat_kw(Keyword::Start) {
            let transaction = self.eat_kw(Keyword::Transaction);
            return Ok(Statement::Start { transaction });
        }
        if self.eat_kw(Keyword::Go) {
            let read_only = if self.eat_kw(Keyword::Read) {
                self.expect_kw(Keyword::Only, "ONLY")?;
                true
            } else {
                false
            };
            let db_version = if self.eat_kw(Keyword::Version) {
                let v = self.expect_ident("version")?;
                Some(v)
            } else {
                None
            };
            return Ok(Statement::Go { read_only, db_version });
        }
        if self.eat_kw(Keyword::Timetravel) {
            let (version, savepoint) = self.parse_version_savepoint()?;
            return Ok(Statement::TimeTravel { version, savepoint });
        }
        if self.eat_kw(Keyword::Rollback) {
            let (version, savepoint) = self.parse_version_savepoint()?;
            return Ok(Statement::Rollback { version, savepoint });
        }
        if self.eat_kw(Keyword::Release) {
            let _ = self.eat_kw(Keyword::Savepoint);
            let savepoint = self.expect_ident("savepoint name")?;
            return Ok(Statement::Release { savepoint });
        }
        if self.eat_kw(Keyword::Explain) {
            let inner = self.parse_statement(d)?;
            return Ok(Statement::Explain { statement: Box::new(inner) });
        }
        if self.eat_kw(Keyword::SetKw) {
            let variable = self.expect_ident("variable name")?;
            self.expect_sym(Sym::Eq, "=")?;
            let value = self.parse_expr(d)?;
            return Ok(Statement::SetVariable { variable, value });
        }
        if self.eat_kw(Keyword::Show) {
            if self.eat_kw(Keyword::Viz) {
                let name = self.expect_ident("visualization name")?;
                let options = self.parse_with_options()?;
                return Ok(Statement::ShowViz { name, options });
            }
            let variable = self.expect_ident("variable name")?;
            return Ok(Statement::Show { variable });
        }
        if self.eat_kw(Keyword::Traverse) {
            self.expect_kw(Keyword::From, "FROM")?;
            let start = self.parse_expr_list(d)?;
            self.expect_kw(Keyword::To, "TO")?;
            let end = self.parse_expr_list(d)?;
            let edge = if self.eat_kw(Keyword::Via) {
                self.parse_expr_list(d)?
            } else {
                Vec::new()
            };
            let where_clause = if self.eat_kw(Keyword::Where) {
                let e = self.parse_expr(d)?;
                Some(Box::new(e))
            } else {
                None
            };
            let order_by = if self.eat_kw(Keyword::Order) {
                self.expect_kw(Keyword::By, "BY")?;
                self.parse_order_list(d)?
            } else {
                Vec::new()
            };
            let limit = if self.eat_kw(Keyword::Limit) {
                let e = self.parse_expr(d)?;
                Some(Box::new(e))
            } else {
                None
            };
            let offset = if self.eat_kw(Keyword::Offset) {
                let e = self.parse_expr(d)?;
                Some(Box::new(e))
            } else {
                None
            };
            return Ok(Statement::Traverse { start, edge, end, where_clause, order_by, limit, offset });
        }
        if self.eat_kw(Keyword::Parse) {
            let is_struct = if self.eat_kw(Keyword::Struct) {
                true
            } else {
                self.expect_kw(Keyword::Array, "STRUCT or ARRAY")?;
                false
            };
            let json = self.parse_expr(d)?;
            self.expect_kw(Keyword::Schema, "SCHEMA")?;
            let schema = self.parse_expr(d)?;
            if is_struct {
                return Ok(Statement::ParseStruct { json, schema });
            }
            return Ok(Statement::ParseArray { json, schema });
        }
        if self.eat_kw(Keyword::Train) {
            self.expect_kw(Keyword::Model, "MODEL")?;
            let name = self.expect_ident("model name")?;
            self.expect_kw(Keyword::On, "ON")?;
            let data = self.parse_expr(d)?;
            let options = self.parse_with_options()?;
            return Ok(Statement::TrainModel { name, data, options });
        }
        if self.eat_kw(Keyword::Predict) {
            let model = self.parse_expr(d)?;
            self.expect_kw(Keyword::On, "ON")?;
            let data = self.parse_expr(d)?;
            let options = self.parse_with_options()?;
            return Ok(Statement::Predict { model, data, options });
        }
        if self.eat_kw(Keyword::Evaluate) {
            let model = self.parse_expr(d)?;
            self.expect_kw(Keyword::On, "ON")?;
            let data = self.parse_expr(d)?;
            let options = self.parse_with_options()?;
            return Ok(Statement::Evaluate { model, data, options });
        }
        if self.eat_kw(Keyword::Cast) {
            self.expect_sym(Sym::LParen, "(")?;
            let expr = self.parse_expr(d)?;
            self.expect_kw(Keyword::As, "AS")?;
            let data_type = self.parse_data_type()?;
            if !self.eat_sym(Sym::RParen) {
                return Err(ParseError::UnbalancedDelimiter { offset: self.cur_offset() });
            }
            return Ok(Statement::Cast { expr, data_type });
        }
        if self.eat_kw(Keyword::Call) {
            let name = self.expect_ident("procedure name")?;
            self.expect_sym(Sym::LParen, "(")?;
            let args = if self.peek_sym(Sym::RParen) {
                Vec::new()
            } else {
                self.parse_expr_list(d)?
            };
            if !self.eat_sym(Sym::RParen) {
                return Err(ParseError::UnbalancedDelimiter { offset: self.cur_offset() });
            }
            return Ok(Statement::Call { name, args });
        }
        if self.eat_kw(Keyword::Attach) {
            self.expect_kw(Keyword::Viz, "VIZ")?;
            let viz_name = self.expect_ident("visualization name")?;
            self.expect_kw(Keyword::To, "TO")?;
            let table_name = self.expect_ident("table name")?;
            let column_name = if self.eat_kw(Keyword::Column) {
                let c = self.expect_ident("column name")?;
                Some(c)
            } else {
                None
            };
            return Ok(Statement::AttachViz { table_name, column_name, viz_name });
        }
        if self.eat_kw(Keyword::Detach) {
            self.expect_kw(Keyword::Viz, "VIZ")?;
            let viz_name = self.expect_ident("visualization name")?;
            self.expect_kw(Keyword::From, "FROM")?;
            let table_name = self.expect_ident("table name")?;
            return Ok(Statement::DetachViz { table_name, viz_name });
        }
        Err(self.err_expected("statement"))
    }

    fn parse_privilege(&mut self) -> (r: Result<Privilege, ParseError>)
        requires
            old(self).wf(),
        ensures
            final(self).wf(),
            Parser::step(*old(self), *final(self)),
            r matches Err(e) ==> parse_error_wf(e, old(self).text@),
    {
        if self.eat_kw(Keyword::Select) {
            Ok(Privilege::Select)
        } else if self.eat_kw(Keyword::Insert) {
            Ok(Privilege::Insert)
        } else if self.eat_kw(Keyword::Update) {
            Ok(Privilege::Update)
        } else if self.eat_kw(Keyword::Delete) {
            Ok(Privilege::Delete)
        } else if self.eat_kw(Keyword::All) {
            Ok(Privilege::All)
        } else {
            Err(self.err_expected("privilege"))
        }
    }
}

/// The parse entry point: tokenizes the query text, parses exactly one
/// statement, requires the whole input to be consumed (one trailing `;` is
/// allowed), and runs the validator before returning. Every `Ok` result is a
/// structurally valid statement; every failure is a typed error — parsing
/// never panics and, being bounded by the depth limit, never hangs.
pub fn parse(text: &str) -> (r: Result<Statement, GqlError>)
    ensures
        r matches Ok(s) ==> stmt_ok(s),
        r matches Err(GqlError::Lex(e)) ==> crate::lexer::lex_error_wf(e, text@),
        r matches Err(GqlError::Parse(e)) ==> parse_error_wf(e, text@),
        text@.len() == 0 ==> r is Err,
        text@ == "COMMIT"@ ==> (r matches Ok(s) && s == Statement::Commit),
        text@ == "END"@ ==> (r matches Ok(s) && s == Statement::End),
        text@ == "SELECT FROM"@ ==> (r matches Err(GqlError::Parse(e)) && e matches
            ParseError::MissingClause { offset, clause } && offset == 7 && clause@
            == "projection"@),
        text@ == "SELECT * FROM t"@ ==> (r matches Ok(s) && select_defaults_example(s)),
{
    let toks = match tokenize(text) {
        Ok(t) => t,
        Err(e) => {
            return Err(GqlError::Lex(e));
        },
    };
    let input_len = text.unicode_len();
    let mut p = Parser { toks, pos: 0, input_len, text: String::from_str(text) };
    let stmt = match p.parse_statement(MAX_DEPTH) {
        Ok(s) => s,
        Err(e) => {
            return Err(GqlError::Parse(e));
        },
    };
    let _ = p.eat_sym(Sym::Semicolon);
    if !p.at_end() {
        return Err(GqlError::Parse(p.err_expected("end of input")));
    }
    proof {
        if text@ == "SELECT * FROM t"@ {
            reveal_strlit("t");
            assert(stmt_ok(stmt)) by {
                reveal_with_fuel(crate::validate::stmt_ok, 2);
                reveal_with_fuel(crate::validate::select_item_ok, 2);
                reveal_with_fuel(crate::validate::from_item_ok, 2);
            };
        }
    }
    match validate_statement(&stmt) {
        Ok(()) => Ok(stmt),
        Err(e) => Err(GqlError::Validation(e)),
    }
}

/// Parses one bare expression, for callers that hold a predicate or a
/// projection on its own rather than a whole statement. The whole input
/// must be one expression; every `Ok` result is structurally valid.
pub fn parse_expression(text: &str) -> (r: Result<Expression, GqlError>)
    ensures
        r matches Ok(e) ==> crate::validate::expr_ok(e),
        r matches Err(GqlError::Lex(e)) ==> crate::lexer::lex_error_wf(e, text@),
        r matches Err(GqlError::Parse(e)) ==> parse_error_wf(e, text@),
        text@.len() == 0 ==> r is Err,
        text@ == "a OR b AND c"@ ==> (r matches Ok(e) && precedence_example(e)),
{
    let toks = match tokenize(text) {
        Ok(t) => t,
        Err(e) => {
            return Err(GqlError::Lex(e));
        },
    };
    let input_len = text.unicode_len();
    let mut p = Parser { toks, pos: 0, input_len, text: String::from_str(text) };
    let e = match p.parse_expr(MAX_DEPTH) {
        Ok(e) => e,
        Err(e) => {
            return Err(GqlError::Parse(e));
        },
    };
    if !p.at_end() {
        return Err(GqlError::Parse(p.err_expected("end of input")));
    }
    proof {
        if text@ == "a OR b AND c"@ {
            reveal_strlit("a");
            reveal_strlit("b");
            reveal_strlit("c");
            assert(crate::validate::expr_ok(e)) by {
                reveal_with_fuel(crate::validate::expr_ok, 4);
            };
        }
    }
    match crate::validate::check_expression(&e) {
        Ok(()) => Ok(e),
        Err(er) => Err(GqlError::Validation(er)),
    }
}

} // verus!
