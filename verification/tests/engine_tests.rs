use gobble::ast::{Assignment, Expression, ModelLanguage, Statement, Value};
use gobble::validate::check_expression;
use gobble::columnar::{
    create_record_batch, create_schema, ColumnData, ColumnarType, EngineError, FieldDef, Schema,
};
use gobble::error::ValidationError;
use gobble::model::model_language_tag;
use gobble::validate::validate_statement;

#[test]
fn schema_for_each_supported_type() {
    for (name, expected) in [
        ("int", ColumnarType::Int64),
        ("float", ColumnarType::Float64),
        ("string", ColumnarType::Utf8),
        ("timestamp", ColumnarType::TimestampNanosecond),
        ("binary", ColumnarType::Binary),
    ] {
        let schema = create_schema(name).unwrap();
        assert_eq!(schema.fields.len(), 1);
        assert_eq!(schema.fields[0].name, name);
        assert_eq!(schema.fields[0].data_type, expected);
        assert!(!schema.fields[0].nullable);
    }
}

#[test]
fn schema_rejects_unknown_type() {
    assert_eq!(
        create_schema("decimal"),
        Err(EngineError::UnsupportedDataType)
    );
    assert_eq!(create_schema("INT"), Err(EngineError::UnsupportedDataType));
}

#[test]
fn record_batch_accepts_fitting_columns() {
    let schema = Schema {
        fields: vec![
            FieldDef {
                name: "id".to_string(),
                data_type: ColumnarType::Int64,
                nullable: false,
            },
            FieldDef {
                name: "name".to_string(),
                data_type: ColumnarType::Utf8,
                nullable: false,
            },
        ],
    };
    let columns = vec![
        ColumnData::Int64(vec![1, 2, 3]),
        ColumnData::Utf8(vec!["a".to_string(), "b".to_string(), "c".to_string()]),
    ];
    let batch = create_record_batch(schema, columns).unwrap();
    assert_eq!(batch.columns.len(), 2);
}

#[test]
fn record_batch_rejects_misfits() {
    let schema = create_schema("int").unwrap();
    // wrong column type
    let r = create_record_batch(schema, vec![ColumnData::Utf8(vec!["a".to_string()])]);
    assert_eq!(r, Err(EngineError::ColumnMismatch));
    // wrong column count
    let schema = create_schema("int").unwrap();
    let r = create_record_batch(schema, vec![]);
    assert_eq!(r, Err(EngineError::ColumnMismatch));
    // unequal row counts
    let schema = Schema {
        fields: vec![
            FieldDef {
                name: "a".to_string(),
                data_type: ColumnarType::Int64,
                nullable: false,
            },
            FieldDef {
                name: "b".to_string(),
                data_type: ColumnarType::Int64,
                nullable: false,
            },
        ],
    };
    let r = create_record_batch(
        schema,
        vec![ColumnData::Int64(vec![1, 2]), ColumnData::Int64(vec![1])],
    );
    assert_eq!(r, Err(EngineError::ColumnMismatch));
}

#[test]
fn model_language_closed_set() {
    assert_eq!(model_language_tag("Rust"), Ok(ModelLanguage::Rust));
    assert_eq!(model_language_tag("Python"), Ok(ModelLanguage::Python));
    assert_eq!(model_language_tag("Julia"), Ok(ModelLanguage::Julia));
    assert_eq!(model_language_tag("R"), Ok(ModelLanguage::R));
    assert_eq!(
        model_language_tag("Cobol"),
        Err(ValidationError::MalformedIdentifier)
    );
    assert_eq!(
        model_language_tag("python"),
        Err(ValidationError::MalformedIdentifier)
    );
}

#[test]
fn validator_rejects_hand_built_malformed_expressions() {
    // a CASE with no WHEN/THEN pairs
    let e = Expression::Case {
        operand: None,
        conditions: vec![],
        results: vec![],
        else_result: None,
    };
    assert_eq!(
        check_expression(&e),
        Err(ValidationError::MalformedExpression)
    );
    // a scalar subquery that is not a SELECT
    let e = Expression::Select { subquery: Box::new(Statement::Commit) };
    assert_eq!(check_expression(&e), Err(ValidationError::MalformedSubquery));
    // an ordinary expression passes
    let e = Expression::Column { name: "a".to_string() };
    assert!(check_expression(&e).is_ok());
}

#[test]
fn validator_rejects_hand_built_malformed_statements() {
    // UPDATE with no assignments
    let s = Statement::Update {
        table_name: "t".to_string(),
        assignments: vec![],
        selection: None,
    };
    assert!(validate_statement(&s).is_err());
    // empty table name
    let s = Statement::Truncate { table_name: String::new() };
    assert_eq!(
        validate_statement(&s),
        Err(ValidationError::MalformedIdentifier)
    );
    // INSERT with neither values nor select
    let s = Statement::Insert {
        table_name: "t".to_string(),
        columns: vec![],
        values: vec![],
        select: None,
        on_conflict: None,
    };
    assert_eq!(validate_statement(&s), Err(ValidationError::InsertShape));
    // a well-formed UPDATE passes
    let s = Statement::Update {
        table_name: "t".to_string(),
        assignments: vec![Assignment {
            id: "a".to_string(),
            value: Expression::Literal { value: Value::Number("1".to_string()) },
        }],
        selection: None,
    };
    assert!(validate_statement(&s).is_ok());
}
