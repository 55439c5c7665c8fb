//! The columnar schema model the engine builds from parsed statements: a
//! schema is a list of typed fields, a record batch couples a schema with
//! equally long, type-matching columns. An unsupported data-type name is a
//! typed error, never a process abort.

use vstd::prelude::*;
use crate::text::str_eq;

verus! {

/// The physical column types of the storage layer.
#[derive(Debug, Clone, Copy, PartialEq, Eq, Structural)]
pub enum ColumnarType {
    Int64,
    Float64,
    Utf8,
    TimestampNanosecond,
    Binary,
}

/// One field of a schema.
#[derive(Debug, PartialEq)]
pub struct FieldDef {
    pub name: String,
    pub data_type: ColumnarType,
    pub nullable: bool,
}

/// An ordered list of fields.
#[derive(Debug, PartialEq)]
pub struct Schema {
    pub fields: Vec<FieldDef>,
}

/// Errors of the columnar layer.
#[derive(Debug, PartialEq)]
pub enum EngineError {
    /// The data-type name is none the schema builder knows.
    UnsupportedDataType,
    /// Columns do not fit the schema: wrong count, wrong type, or unequal
    /// row counts.
    ColumnMismatch,
}

/// The columnar type a data-type name selects, if any.
pub open spec fn columnar_type_of(name: Seq<char>) -> Option<ColumnarType> {
    if name == "int"@ {
        Option::Some(ColumnarType::Int64)
    } else if name == "float"@ {
        Option::Some(ColumnarType::Float64)
    } else if name == "string"@ {
        Option::Some(ColumnarType::Utf8)
    } else if name == "timestamp"@ {
        Option::Some(ColumnarType::TimestampNanosecond)
    } else if name == "binary"@ {
        Option::Some(ColumnarType::Binary)
    } else {
        Option::None
    }
}

/// Builds the one-field schema a data-type name describes. Succeeds exactly
/// on the supported names and then yields one non-nullable field carrying
/// the name and its columnar type.
pub fn create_schema(data_type: &str) -> (r: Result<Schema, EngineError>)
    ensures
        r is Ok <==> columnar_type_of(data_type@) is Some,
        r matches Ok(s) ==> {
            &&& s.fields@.len() == 1
            &&& s.fields@[0].name@ == data_type@
            &&& Option::Some(s.fields@[0].data_type) == columnar_type_of(data_type@)
            &&& !s.fields@[0].nullable
        },
        r matches Err(e) ==> e == EngineError::UnsupportedDataType,
{
    let data_type_tag = if str_eq(data_type, "int") {
        ColumnarType::Int64
    } else if str_eq(data_type, "float") {
        ColumnarType::Float64
    } else if str_eq(data_type, "string") {
        ColumnarType::Utf8
    } else if str_eq(data_type, "timestamp") {
        ColumnarType::TimestampNanosecond
    } else if str_eq(data_type, "binary") {
        ColumnarType::Binary
    } else {
        return Err(EngineError::UnsupportedDataType);
    };
    let field = FieldDef {
        name: String::from_str(data_type),
        data_type: data_type_tag,
        nullable: false,
    };
    let mut fields: Vec<FieldDef> = Vec::new();
    fields.push(field);
    Ok(Schema { fields })
}

/// One column of values. Floating-point columns live in the storage layer
/// itself; the front end models the column kinds it can populate from
/// literals.
#[derive(Debug, PartialEq)]
pub enum ColumnData {
    Int64(Vec<i64>),
    Utf8(Vec<String>),
    TimestampNanosecond(Vec<i64>),
    Binary(Vec<Vec<u8>>),
}

/// How many values a column holds.
pub open spec fn column_len(c: ColumnData) -> nat {
    match c {
        ColumnData::Int64(v) => v@.len(),
        ColumnData::Utf8(v) => v@.len(),
        ColumnData::TimestampNanosecond(v) => v@.len(),
        ColumnData::Binary(v) => v@.len(),
    }
}

/// Whether a column holds values of a field's type.
pub open spec fn column_matches(c: ColumnData, t: ColumnarType) -> bool {
    match c {
        ColumnData::Int64(_) => t == ColumnarType::Int64,
        ColumnData::Utf8(_) => t == ColumnarType::Utf8,
        ColumnData::TimestampNanosecond(_) => t == ColumnarType::TimestampNanosecond,
        ColumnData::Binary(_) => t == ColumnarType::Binary,
    }
}

/// Columns fit a schema: one per field, each of the field's type, all with
/// the same number of rows.
pub open spec fn batch_ok(schema: Schema, columns: Seq<ColumnData>) -> bool {
    &&& columns.len() == schema.fields@.len()
    &&& forall|i: int|
        0 <= i < columns.len() ==> column_matches(#[trigger] columns[i], schema.fields@[i].data_type)
    &&& forall|i: int|
        0 <= i < columns.len() ==> column_len(#[trigger] columns[i]) == column_len(columns[0])
}

/// A schema together with columns that fit it.
#[derive(Debug, PartialEq)]
pub struct RecordBatch {
    pub schema: Schema,
    pub columns: Vec<ColumnData>,
}

fn exec_column_len(c: &ColumnData) -> (r: usize)
    ensures
        r == column_len(*c),
{
    match c {
        ColumnData::Int64(v) => v.len(),
        ColumnData::Utf8(v) => v.len(),
        ColumnData::TimestampNanosecond(v) => v.len(),
        ColumnData::Binary(v) => v.len(),
    }
}

fn exec_column_matches(c: &ColumnData, t: ColumnarType) -> (r: bool)
    ensures
        r == column_matches(*c, t),
{
    match c {
        ColumnData::Int64(_) => t == ColumnarType::Int64,
        ColumnData::Utf8(_) => t == ColumnarType::Utf8,
        ColumnData::TimestampNanosecond(_) => t == ColumnarType::TimestampNanosecond,
        ColumnData::Binary(_) => t == ColumnarType::Binary,
    }
}

/// Builds a record batch. Succeeds exactly when the columns fit the schema
/// (`batch_ok`), and then keeps schema and columns unchanged.
pub fn create_record_batch(schema: Schema, columns: Vec<ColumnData>) -> (r: Result<
    RecordBatch,
    EngineError,
>)
    ensures
        r is Ok <==> batch_ok(schema, columns@),
        r matches Ok(b) ==> b.schema == schema && b.columns == columns,
        r matches Err(e) ==> e == EngineError::ColumnMismatch,
{
    if columns.len() != schema.fields.len() {
        return Err(EngineError::ColumnMismatch);
    }
    let mut i: usize = 0;
    while i < columns.len()
        invariant
            i <= columns@.len(),
            columns@.len() == schema.fields@.len(),
            forall|j: int|
                0 <= j < i ==> column_matches(#[trigger] columns@[j], schema.fields@[j].data_type),
            forall|j: int|
                0 <= j < i ==> column_len(#[trigger] columns@[j]) == column_len(columns@[0]),
        decreases columns@.len() - i,
    {
        if !exec_column_matches(&columns[i], schema.fields[i].data_type) {
            return Err(EngineError::ColumnMismatch);
        }
        if exec_column_len(&columns[i]) != exec_column_len(&columns[0]) {
            return Err(EngineError::ColumnMismatch);
        }
        i += 1;
    }
    Ok(RecordBatch { schema, columns })
}

} // verus!
