use gobble::ast::{
    BinaryOperator, Column, ConstraintType, DataType, Expression, FromItem, ObjectType,
    SelectItem, Statement, Value,
};
use gobble::error::{GqlError, LexError, ParseError, ValidationError};
use gobble::parser::{parse, parse_expression};
use gobble::render::{render, render_parse_round_trip};

/// Parses, renders, reparses, and asserts the two trees are equal.
fn rt(text: &str) {
    let a = parse(text).unwrap_or_else(|e| panic!("{text}: {e:?}"));
    let rendered = render(&a);
    let b = parse(rendered.as_str()).unwrap_or_else(|e| panic!("{rendered}: {e:?}"));
    assert_eq!(a, b, "round trip through {rendered}");
}

#[test]
fn precedence_or_and() {
    // AND binds tighter than OR
    let expected = Expression::BinaryOp {
        left: Box::new(Expression::Column { name: "a".to_string() }),
        op: BinaryOperator::Or,
        right: Box::new(Expression::BinaryOp {
            left: Box::new(Expression::Column { name: "b".to_string() }),
            op: BinaryOperator::And,
            right: Box::new(Expression::Column { name: "c".to_string() }),
        }),
    };
    assert_eq!(parse_expression("a OR b AND c").unwrap(), expected);
    // the same shape reaches a statement through its WHERE clause
    match parse("SELECT * FROM t WHERE a OR b AND c").unwrap() {
        Statement::Select { selection: Some(e), .. } => assert_eq!(*e, expected),
        other => panic!("unexpected: {other:?}"),
    }
}

#[test]
fn precedence_comparison_and_arithmetic() {
    // comparison binds tighter than AND; * tighter than +
    let got = parse_expression("a + b * c = d AND e").unwrap();
    let sum = Expression::BinaryOp {
        left: Box::new(Expression::Column { name: "a".to_string() }),
        op: BinaryOperator::Plus,
        right: Box::new(Expression::BinaryOp {
            left: Box::new(Expression::Column { name: "b".to_string() }),
            op: BinaryOperator::Multiply,
            right: Box::new(Expression::Column { name: "c".to_string() }),
        }),
    };
    let cmp = Expression::BinaryOp {
        left: Box::new(sum),
        op: BinaryOperator::Equals,
        right: Box::new(Expression::Column { name: "d".to_string() }),
    };
    let expected = Expression::BinaryOp {
        left: Box::new(cmp),
        op: BinaryOperator::And,
        right: Box::new(Expression::Column { name: "e".to_string() }),
    };
    assert_eq!(got, expected);
}

#[test]
fn binary_operators_are_left_associative() {
    let got = parse_expression("a - b - c").unwrap();
    let expected = Expression::BinaryOp {
        left: Box::new(Expression::BinaryOp {
            left: Box::new(Expression::Column { name: "a".to_string() }),
            op: BinaryOperator::Minus,
            right: Box::new(Expression::Column { name: "b".to_string() }),
        }),
        op: BinaryOperator::Minus,
        right: Box::new(Expression::Column { name: "c".to_string() }),
    };
    assert_eq!(got, expected);
}

#[test]
fn optional_clauses_default() {
    let got = parse("SELECT * FROM t").unwrap();
    match got {
        Statement::Select {
            distinct,
            projection,
            from,
            selection,
            group_by,
            having,
            order_by,
            limit,
            offset,
        } => {
            assert!(!distinct);
            assert_eq!(projection, vec![SelectItem::Wildcard]);
            assert_eq!(
                from,
                vec![FromItem::Table { name: "t".to_string(), alias: None }]
            );
            assert!(selection.is_none());
            assert!(group_by.is_empty());
            assert!(having.is_none());
            assert!(order_by.is_empty());
            assert!(limit.is_none());
            assert!(offset.is_none());
        }
        other => panic!("unexpected: {other:?}"),
    }
}

#[test]
fn ddl_example() {
    let got = parse("CREATE TABLE t (id INT PRIMARY KEY, name TEXT)").unwrap();
    let expected = Statement::Create {
        object_type: ObjectType::Table,
        if_not_exists: false,
        name: "t".to_string(),
        columns: vec![
            Column {
                name: "id".to_string(),
                data_type: DataType::Int,
                nullable: false,
                default: None,
                options: vec![],
                constraint_type: Some(ConstraintType::PrimaryKey),
                constraint_enforced: true,
            },
            Column {
                name: "name".to_string(),
                data_type: DataType::Text,
                nullable: true,
                default: None,
                options: vec![],
                constraint_type: None,
                constraint_enforced: true,
            },
        ],
        constraints: vec![],
        options: vec![],
        with: None,
    };
    assert_eq!(got, expected);
}

#[test]
fn graph_example() {
    let got = parse("TRAVERSE FROM a TO b VIA e WHERE e.weight > 5").unwrap();
    match got {
        Statement::Traverse { start, edge, end, where_clause: Some(w), .. } => {
            assert_eq!(start, vec![Expression::Column { name: "a".to_string() }]);
            assert_eq!(end, vec![Expression::Column { name: "b".to_string() }]);
            assert_eq!(edge, vec![Expression::Column { name: "e".to_string() }]);
            let expected = Expression::BinaryOp {
                left: Box::new(Expression::Column { name: "e.weight".to_string() }),
                op: BinaryOperator::GreaterThan,
                right: Box::new(Expression::Literal {
                    value: Value::Number("5".to_string()),
                }),
            };
            assert_eq!(*w, expected);
        }
        other => panic!("unexpected: {other:?}"),
    }
}

#[test]
fn error_example_missing_projection() {
    let got = parse("SELECT FROM");
    match got {
        Err(GqlError::Parse(ParseError::MissingClause { offset, clause })) => {
            assert_eq!(offset, 7);
            assert_eq!(clause, "projection");
        }
        other => panic!("unexpected: {other:?}"),
    }
}

#[test]
fn totality_on_junk_inputs() {
    // every input yields Ok or a typed error, never a panic or a hang
    for text in [
        "",
        " ",
        "SELECT",
        "((((",
        "CREATE",
        "1 + 2",
        "SELECT * FROM",
        "xyzzy frobnicate",
        "INSERT INTO",
        ";;;",
    ] {
        let _ = parse(text);
    }
}

#[test]
fn depth_limit_instead_of_stack_overflow() {
    let mut text = String::from("SELECT * FROM t WHERE ");
    for _ in 0..2000 {
        text.push('(');
    }
    text.push('1');
    for _ in 0..2000 {
        text.push(')');
    }
    match parse(&text) {
        Err(GqlError::Parse(ParseError::DepthLimitExceeded)) => {}
        other => panic!("unexpected: {other:?}"),
    }
}

#[test]
fn lex_unterminated_string() {
    match parse("SELECT * FROM t WHERE a = 'abc") {
        Err(GqlError::Lex(LexError::UnterminatedString { offset })) => assert_eq!(offset, 26),
        other => panic!("unexpected: {other:?}"),
    }
}

#[test]
fn lex_invalid_character() {
    match parse("SELECT @ FROM t") {
        Err(GqlError::Lex(LexError::InvalidCharacter { offset })) => assert_eq!(offset, 7),
        other => panic!("unexpected: {other:?}"),
    }
}

#[test]
fn unsupported_object_type() {
    match parse("CREATE SEQUENCE s") {
        Err(GqlError::Parse(ParseError::UnsupportedObjectType { offset })) => {
            assert_eq!(offset, 7)
        }
        other => panic!("unexpected: {other:?}"),
    }
}

#[test]
fn trailing_tokens_rejected() {
    match parse("COMMIT COMMIT") {
        Err(GqlError::Parse(ParseError::UnexpectedToken { offset, expected, found })) => {
            assert_eq!(offset, 7);
            assert_eq!(expected, "end of input");
            assert_eq!(found, "COMMIT");
        }
        other => panic!("unexpected: {other:?}"),
    }
}

#[test]
fn negative_limit_rejected() {
    match parse("SELECT * FROM t LIMIT -1") {
        Err(GqlError::Validation(ValidationError::NegativeLimitOrOffset)) => {}
        other => panic!("unexpected: {other:?}"),
    }
    match parse("SELECT * FROM t LIMIT 10") {
        Ok(Statement::Select { limit: Some(l), .. }) => {
            assert_eq!(
                *l,
                Expression::Literal { value: Value::Number("10".to_string()) }
            );
        }
        other => panic!("unexpected: {other:?}"),
    }
}

#[test]
fn primary_key_null_conflict() {
    match parse("CREATE TABLE t (id INT PRIMARY KEY NULL)") {
        Err(GqlError::Validation(ValidationError::ConflictingConstraints)) => {}
        other => panic!("unexpected: {other:?}"),
    }
}

#[test]
fn insert_arity_mismatch() {
    match parse("INSERT INTO t (a, b) VALUES (1)") {
        Err(GqlError::Validation(ValidationError::InsertShape)) => {}
        other => panic!("unexpected: {other:?}"),
    }
    assert!(parse("INSERT INTO t (a, b) VALUES (1, 2)").is_ok());
}

#[test]
fn comments_and_case_insensitive_keywords() {
    assert!(parse("commit -- finish the work").is_ok());
    assert_eq!(parse("select * from t").unwrap(), parse("SELECT * FROM t").unwrap());
}

#[test]
fn keywords_preserve_identifier_case() {
    match parse("SELECT * FROM MyTable").unwrap() {
        Statement::Select { from, .. } => {
            assert_eq!(
                from,
                vec![FromItem::Table { name: "MyTable".to_string(), alias: None }]
            );
        }
        other => panic!("unexpected: {other:?}"),
    }
}

#[test]
fn round_trip_transaction_statements() {
    rt("GO READ ONLY VERSION v1");
    rt("GO");
    rt("COMMIT");
    rt("TIMETRAVEL VERSION v2 SAVEPOINT sp1");
    rt("ROLLBACK SAVEPOINT sp1");
    rt("ROLLBACK");
    rt("RELEASE SAVEPOINT sp1");
    rt("EXPLAIN SELECT * FROM t");
}

#[test]
fn round_trip_ddl_statements() {
    rt("CREATE TABLE t (id INT PRIMARY KEY, name TEXT)");
    rt("CREATE TABLE IF NOT EXISTS t (id INT, name TEXT NOT NULL DEFAULT 'x', PRIMARY KEY (id), UNIQUE (name), CHECK (id > 0)) WITH (pages = 4)");
    rt("CREATE INDEX i");
    rt("ALTER TABLE t ADD COLUMN age INT NOT NULL");
    rt("ALTER TABLE t DROP COLUMN age");
    rt("ALTER TABLE t RENAME COLUMN a TO b");
    rt("DROP TABLE IF EXISTS t CASCADE");
    rt("DROP VIEW v");
    rt("TRUNCATE TABLE t");
    rt("RENAME TABLE t TO u");
}

#[test]
fn round_trip_dml_statements() {
    rt("INSERT INTO t (a, b) VALUES (1, 'x'), (2, 'y') ON CONFLICT DO NOTHING");
    rt("INSERT INTO t VALUES (1) ON CONFLICT DO UPDATE SET a = 2");
    rt("INSERT INTO t SELECT * FROM u");
    rt("UPDATE t SET a = 1, b = a + 2 WHERE a > 0");
    rt("DELETE FROM t WHERE a = 1");
    rt("SELECT DISTINCT a AS x, COUNT(*) FROM t AS s INNER JOIN u ON s.id = u.id, w WHERE a > 1 GROUP BY a HAVING COUNT(*) > 1 ORDER BY a DESC, b ASC LIMIT 10 OFFSET 5");
    rt("SELECT * FROM t LEFT OUTER JOIN u USING (id, name)");
    rt("SELECT * FROM (SELECT * FROM t) AS s");
    rt("SELECT (SELECT a FROM t) FROM u");
    rt("SELECT * FROM t WHERE EXISTS (SELECT * FROM u)");
    rt("SELECT CASE WHEN a = 1 THEN 2 ELSE 3 END FROM t");
    rt("SELECT CASE a WHEN 1 THEN 2 WHEN 2 THEN 3 END FROM t");
    rt("SELECT CAST (a AS INT) FROM t");
    rt("SELECT * FROM t WHERE a IS NULL AND b IS NOT NULL");
    rt("SELECT * FROM t WHERE a NOT LIKE 'x%' OR a NOT IN b");
    rt("SELECT -a + 2 * 3 % 4 - 5 / 6 FROM t");
    rt("SELECT * FROM t WHERE NOT a = 'it\\'s' OR b = 'quoted'");
}

#[test]
fn round_trip_session_statements() {
    rt("GRANT SELECT ON TABLE t TO alice");
    rt("REVOKE ALL ON TABLE t FROM bob");
    rt("SET x = 1");
    rt("SHOW x");
    rt("START TRANSACTION");
    rt("START");
    rt("END");
}

#[test]
fn round_trip_graph_statements() {
    rt("TRAVERSE FROM a TO b VIA e WHERE e.weight > 5");
    rt("TRAVERSE FROM a, b TO c ORDER BY w DESC LIMIT 3 OFFSET 1");
    rt("CREATE EDGE FROM a TO b VIA e SET w = 1");
    rt("CREATE EDGE FROM a TO b");
    rt("DELETE EDGE FROM a TO b VIA e");
    rt("PARSE STRUCT doc SCHEMA s1");
    rt("PARSE ARRAY doc SCHEMA s1");
}

#[test]
fn round_trip_model_and_viz_statements() {
    rt("CREATE MODEL m TYPE REGRESSION WITH (epochs = 10)");
    rt("CREATE MODEL m TYPE CLUSTERING");
    rt("TRAIN MODEL m ON tbl");
    rt("PREDICT m ON tbl WITH (batch = 8)");
    rt("EVALUATE m ON tbl");
    rt("CAST (a AS INT)");
    rt("CALL proc(1, 'x')");
    rt("CALL proc()");
    rt("CREATE VIZ v TYPE BAR WITH (color = 'red')");
    rt("SHOW VIZ v");
    rt("ALTER VIZ v WITH (color = 'blue')");
    rt("DROP VIZ v");
    rt("ATTACH VIZ v TO t COLUMN c");
    rt("ATTACH VIZ v TO t");
    rt("DETACH VIZ v FROM t");
}

#[test]
fn unexpected_end_of_input() {
    match parse("DROP TABLE") {
        Err(GqlError::Parse(ParseError::UnexpectedEnd { offset, expected })) => {
            assert_eq!(offset, 10);
            assert_eq!(expected, "object name");
        }
        other => panic!("unexpected: {other:?}"),
    }
}

#[test]
fn unbalanced_delimiter() {
    match parse("SELECT (a + b FROM t") {
        Err(GqlError::Parse(ParseError::UnbalancedDelimiter { offset })) => {
            assert_eq!(offset, 14);
        }
        other => panic!("unexpected: {other:?}"),
    }
}

#[test]
fn round_trip_witness_reproduces_the_tree() {
    assert_eq!(
        render_parse_round_trip(&Statement::Commit).unwrap(),
        Statement::Commit
    );
    let s = parse("SELECT * FROM t").unwrap();
    let again = render_parse_round_trip(&s).unwrap();
    assert_eq!(s, again);
}

#[test]
fn trailing_semicolon_allowed() {
    assert_eq!(parse("COMMIT;").unwrap(), Statement::Commit);
}
