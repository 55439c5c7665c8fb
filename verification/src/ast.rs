//! The abstract syntax tree of GQL: one `Statement` enum over the
//! relational, transaction, session, graph, semi-structured,
//! machine-learning and visualization statement families, with the
//! expression, value and clause node types they carry. A node is immutable
//! once built and owns its children exclusively.

use vstd::prelude::*;

verus! {

/// Scalar data types a column or a cast can name.
#[derive(Debug, Clone, PartialEq, Eq, Structural)]
pub enum DataType {
    Int,
    Float,
    Text,
    Boolean,
    Timestamp,
    Binary,
}

/// Kinds of schema objects DDL statements operate on.
#[derive(Debug, Clone, PartialEq, Eq, Structural)]
pub enum ObjectType {
    Table,
    Index,
    View,
    Model,
    Viz,
}

/// Privileges granted or revoked by DCL statements.
#[derive(Debug, Clone, PartialEq, Eq, Structural)]
pub enum Privilege {
    Select,
    Insert,
    Update,
    Delete,
    All,
}

/// The closed set of model families a model statement can name.
#[derive(Debug, Clone, PartialEq, Eq, Structural)]
pub enum ModelType {
    Regression,
    Classification,
    Clustering,
}

/// The closed set of ecosystems a model can be executed in.
#[derive(Debug, Clone, PartialEq, Eq, Structural)]
pub enum ModelLanguage {
    Rust,
    Python,
    Julia,
    R,
}

/// The closed set of chart kinds a visualization statement can name.
#[derive(Debug, Clone, PartialEq, Eq, Structural)]
pub enum VizType {
    Bar,
    Line,
    Scatter,
    Pie,
}

/// Literal values; numbers keep their textual form so precision is parsed
/// lazily by the consumer.
#[derive(Debug, PartialEq)]
pub enum Value {
    Number(String),
    String(String),
    Boolean(bool),
    Null,
}

/// Binary operators, lowest-binding first in the precedence table.
#[derive(Debug, Clone, PartialEq, Eq, Structural)]
pub enum BinaryOperator {
    Plus,
    Minus,
    Multiply,
    Divide,
    Modulus,
    Equals,
    NotEquals,
    LessThan,
    LessThanOrEquals,
    GreaterThan,
    GreaterThanOrEquals,
    And,
    Or,
    Like,
    NotLike,
    In,
    NotIn,
    Is,
    IsNot,
}

/// Unary operators.
#[derive(Debug, Clone, PartialEq, Eq, Structural)]
pub enum UnaryOperator {
    Not,
    Minus,
}

/// Expression tree produced by the precedence-climbing parser.
#[derive(Debug, PartialEq)]
pub enum Expression {
    BinaryOp { left: Box<Expression>, op: BinaryOperator, right: Box<Expression> },
    UnaryOp { op: UnaryOperator, expr: Box<Expression> },
    Function { name: String, args: Vec<Expression> },
    Cast { expr: Box<Expression>, data_type: DataType },
    Case {
        operand: Option<Box<Expression>>,
        conditions: Vec<Expression>,
        results: Vec<Expression>,
        else_result: Option<Box<Expression>>,
    },
    Exists { subquery: Box<Statement> },
    Select { subquery: Box<Statement> },
    Column { name: String },
    Literal { value: Value },
    Wildcard,
}

/// One item of a SELECT projection list.
#[derive(Debug, PartialEq)]
pub enum SelectItem {
    Wildcard,
    UnnamedExpr(Expression),
    ExprWithAlias { expr: Expression, alias: String },
}

/// One source of a FROM clause; joins nest two sources.
#[derive(Debug, PartialEq)]
pub enum FromItem {
    Table { name: String, alias: Option<String> },
    Join {
        left: Box<FromItem>,
        right: Box<FromItem>,
        join_operator: JoinOperator,
        join_constraint: Option<JoinConstraint>,
    },
    Subquery { query: Box<Statement>, alias: String },
}

/// The join flavours of the FROM clause.
#[derive(Debug, Clone, PartialEq, Eq, Structural)]
pub enum JoinOperator {
    Inner,
    LeftOuter,
    RightOuter,
    FullOuter,
}

/// How a join is constrained.
#[derive(Debug, PartialEq)]
pub enum JoinConstraint {
    On(Expression),
    Using(Vec<String>),
}

/// A column definition in CREATE TABLE or ALTER TABLE ADD COLUMN.
#[derive(Debug, PartialEq)]
pub struct Column {
    pub name: String,
    pub data_type: DataType,
    pub nullable: bool,
    pub default: Option<Expression>,
    pub options: Vec<TableOption>,
    pub constraint_type: Option<ConstraintType>,
    pub constraint_enforced: bool,
}

/// Column-level constraint kinds; a column carries at most one.
#[derive(Debug, Clone, PartialEq, Eq, Structural)]
pub enum ConstraintType {
    PrimaryKey,
    Unique,
    ForeignKey,
    Check,
}

/// A table-level constraint in CREATE TABLE.
#[derive(Debug, PartialEq)]
pub enum Constraint {
    PrimaryKey(Vec<String>),
    Unique(Vec<String>),
    Check(Expression),
}

/// A `name = value` option in a WITH list.
#[derive(Debug, PartialEq)]
pub struct TableOption {
    pub name: String,
    pub value: Value,
}

/// The WITH clause of a CREATE statement.
#[derive(Debug, PartialEq)]
pub struct With {
    pub options: Vec<TableOption>,
}

/// One operation of an ALTER statement.
#[derive(Debug, PartialEq)]
pub enum AlterOperation {
    AddColumn(Column),
    DropColumn(String),
    RenameColumn { old_name: String, new_name: String },
}

/// The conflict policy of an INSERT statement.
#[derive(Debug, PartialEq)]
pub enum OnConflict {
    DoNothing,
    DoUpdate(Vec<Assignment>),
}

/// One sort key of an ORDER BY clause; ascending unless DESC was written.
#[derive(Debug, PartialEq)]
pub struct OrderByExpr {
    pub expr: Expression,
    pub asc: bool,
}

/// A `column = expression` pair in UPDATE or edge properties.
#[derive(Debug, PartialEq)]
pub struct Assignment {
    pub id: String,
    pub value: Expression,
}

/// A parsed GQL statement: the single tagged union over every statement
/// family the grammar accepts.
#[derive(Debug, PartialEq)]
pub enum Statement {
    // Transaction statements
    Go { read_only: bool, db_version: Option<String> },
    Commit,
    TimeTravel { version: Option<String>, savepoint: Option<String> },
    Rollback { version: Option<String>, savepoint: Option<String> },
    Release { savepoint: String },
    Explain { statement: Box<Statement> },
    // Data definition statements
    Create {
        object_type: ObjectType,
        if_not_exists: bool,
        name: String,
        columns: Vec<Column>,
        constraints: Vec<Constraint>,
        options: Vec<TableOption>,
        with: Option<With>,
    },
    Alter { object_type: ObjectType, name: String, operation: AlterOperation },
    Drop { object_type: ObjectType, if_exists: bool, name: String, cascade: bool },
    Truncate { table_name: String },
    Rename { object_type: ObjectType, name: String, new_name: String },
    // Data manipulation statements
    Insert {
        table_name: String,
        columns: Vec<String>,
        values: Vec<Vec<Expression>>,
        select: Option<Box<Statement>>,
        on_conflict: Option<OnConflict>,
    },
    Update { table_name: String, assignments: Vec<Assignment>, selection: Option<Box<Expression>> },
    Delete { table_name: String, selection: Option<Box<Expression>> },
    Select {
        distinct: bool,
        projection: Vec<SelectItem>,
        from: Vec<FromItem>,
        selection: Option<Box<Expression>>,
        group_by: Vec<Expression>,
        having: Option<Box<Expression>>,
        order_by: Vec<OrderByExpr>,
        limit: Option<Box<Expression>>,
        offset: Option<Box<Expression>>,
    },
    // Data control statements
    Grant { privilege: Privilege, object_type: ObjectType, on_name: String, to_name: String },
    Revoke { privilege: Privilege, object_type: ObjectType, on_name: String, from_name: String },
    // Session control statements
    SetVariable { variable: String, value: Expression },
    Show { variable: String },
    Start { transaction: bool },
    End,
    // Graph statements
    Traverse {
        start: Vec<Expression>,
        edge: Vec<Expression>,
        end: Vec<Expression>,
        where_clause: Option<Box<Expression>>,
        order_by: Vec<OrderByExpr>,
        limit: Option<Box<Expression>>,
        offset: Option<Box<Expression>>,
    },
    CreateEdge {
        from: Vec<Expression>,
        to: Vec<Expression>,
        edge: Vec<Expression>,
        properties: Vec<Assignment>,
    },
    DeleteEdge { from: Vec<Expression>, to: Vec<Expression>, edge: Vec<Expression> },
    // Semi-structured statements
    ParseStruct { json: Expression, schema: Expression },
    ParseArray { json: Expression, schema: Expression },
    // Machine learning statements
    CreateModel { name: String, model_type: ModelType, options: Vec<TableOption> },
    TrainModel { name: String, data: Expression, options: Vec<TableOption> },
    Predict { model: Expression, data: Expression, options: Vec<TableOption> },
    Evaluate { model: Expression, data: Expression, options: Vec<TableOption> },
    // Other statements
    Cast { expr: Expression, data_type: DataType },
    Call { name: String, args: Vec<Expression> },
    // Visualization statements
    CreateViz { name: String, viz_type: VizType, options: Vec<TableOption> },
    ShowViz { name: String, options: Vec<TableOption> },
    AlterViz { name: String, options: Vec<TableOption> },
    DropViz { name: String },
    AttachViz { table_name: String, column_name: Option<String>, viz_name: String },
    DetachViz { table_name: String, viz_name: String },
}

} // verus!
