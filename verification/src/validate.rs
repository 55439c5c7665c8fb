//! The validator: structural checks on a fully built statement that the
//! grammar itself cannot express — non-empty names, at most one primary
//! constraint with `PRIMARY KEY` implying `NOT NULL`, the INSERT shape
//! (values rows or a select source, never neither, rows matching the column
//! arity), LIMIT/OFFSET as non-negative integer literals, and well-formed
//! CASE and subquery nodes. `stmt_ok` is the exact meaning of "valid": the
//! executable checker returns `Ok` if and only if it holds.

use vstd::prelude::*;
use crate::ast::{
    Assignment, Column, Constraint, ConstraintType, Expression, FromItem, JoinConstraint,
    OnConflict, OrderByExpr, SelectItem, Statement, TableOption, Value,
};
use crate::ast::AlterOperation;
use crate::error::ValidationError;
use crate::text::{is_nonneg_int_text, nonneg_int_text};

verus! {

/// A literal value is well formed: a number keeps a non-empty textual form.
pub open spec fn value_ok(v: Value) -> bool {
    match v {
        Value::Number(s) => s@.len() > 0,
        _ => true,
    }
}

/// An optional name, non-empty where present.
pub open spec fn opt_name_ok(o: Option<String>) -> bool {
    match o {
        Option::Some(s) => s@.len() > 0,
        Option::None => true,
    }
}

/// A LIMIT or OFFSET clause is absent or a non-negative integer literal.
pub open spec fn limit_ok(l: Option<Box<Expression>>) -> bool {
    match l {
        Option::None => true,
        Option::Some(e) => match *e {
            Expression::Literal { value: Value::Number(s) } => is_nonneg_int_text(s@),
            _ => false,
        },
    }
}

/// A `name = value` option is well formed.
pub open spec fn option_ok(o: TableOption) -> bool {
    o.name@.len() > 0 && value_ok(o.value)
}

pub open spec fn options_ok(os: Seq<TableOption>) -> bool {
    forall|i: int| 0 <= i < os.len() ==> option_ok(#[trigger] os[i])
}

/// A well-formed expression node: non-empty column and function names,
/// CASE with as many THEN results as WHEN conditions and at least one pair,
/// and every subquery a valid SELECT statement.
pub open spec fn expr_ok(e: Expression) -> bool
    decreases e,
{
    match e {
        Expression::BinaryOp { left, op, right } => expr_ok(*left) && expr_ok(*right),
        Expression::UnaryOp { op, expr } => expr_ok(*expr),
        Expression::Function { name, args } => name@.len() > 0 && (forall|i: int|
            0 <= i < args.len() ==> expr_ok(#[trigger] args[i])),
        Expression::Cast { expr, data_type } => expr_ok(*expr),
        Expression::Case { operand, conditions, results, else_result } => {
            &&& conditions.len() == results.len()
            &&& conditions.len() > 0
            &&& match operand {
                Option::Some(b) => expr_ok(*b),
                Option::None => true,
            }
            &&& forall|i: int| 0 <= i < conditions.len() ==> expr_ok(#[trigger] conditions[i])
            &&& forall|i: int| 0 <= i < results.len() ==> expr_ok(#[trigger] results[i])
            &&& match else_result {
                Option::Some(b) => expr_ok(*b),
                Option::None => true,
            }
        },
        Expression::Exists { subquery } => *subquery is Select && stmt_ok(*subquery),
        Expression::Select { subquery } => *subquery is Select && stmt_ok(*subquery),
        Expression::Column { name } => name@.len() > 0,
        Expression::Literal { value } => value_ok(value),
        Expression::Wildcard => true,
    }
}

pub open spec fn opt_expr_ok(o: Option<Box<Expression>>) -> bool
    decreases o,
{
    match o {
        Option::Some(e) => expr_ok(*e),
        Option::None => true,
    }
}

pub open spec fn exprs_ok(es: Seq<Expression>) -> bool
    decreases es,
{
    forall|i: int| 0 <= i < es.len() ==> expr_ok(#[trigger] es[i])
}

pub open spec fn select_item_ok(it: SelectItem) -> bool
    decreases it,
{
    match it {
        SelectItem::Wildcard => true,
        SelectItem::UnnamedExpr(e) => expr_ok(e),
        SelectItem::ExprWithAlias { expr, alias } => expr_ok(expr) && alias@.len() > 0,
    }
}

pub open spec fn from_item_ok(f: FromItem) -> bool
    decreases f,
{
    match f {
        FromItem::Table { name, alias } => name@.len() > 0 && opt_name_ok(alias),
        FromItem::Join { left, right, join_operator, join_constraint } => {
            &&& from_item_ok(*left)
            &&& from_item_ok(*right)
            &&& match join_constraint {
                Option::Some(JoinConstraint::On(e)) => expr_ok(e),
                Option::Some(JoinConstraint::Using(cols)) => cols.len() > 0 && forall|i: int|
                    0 <= i < cols.len() ==> #[trigger] cols[i]@.len() > 0,
                Option::None => true,
            }
        },
        FromItem::Subquery { query, alias } => *query is Select && stmt_ok(*query) && alias@.len()
            > 0,
    }
}

/// A column definition is well formed; a primary-key column is not nullable.
pub open spec fn column_ok(c: Column) -> bool
    decreases c,
{
    &&& c.name@.len() > 0
    &&& (c.constraint_type == Option::Some(ConstraintType::PrimaryKey) ==> !c.nullable)
    &&& match c.default {
        Option::Some(e) => expr_ok(e),
        Option::None => true,
    }
    &&& options_ok(c.options@)
}

pub open spec fn constraint_ok(c: Constraint) -> bool
    decreases c,
{
    match c {
        Constraint::PrimaryKey(cols) => cols.len() > 0 && forall|i: int|
            0 <= i < cols.len() ==> #[trigger] cols[i]@.len() > 0,
        Constraint::Unique(cols) => cols.len() > 0 && forall|i: int|
            0 <= i < cols.len() ==> #[trigger] cols[i]@.len() > 0,
        Constraint::Check(e) => expr_ok(e),
    }
}

pub open spec fn assignment_ok(a: Assignment) -> bool
    decreases a,
{
    a.id@.len() > 0 && expr_ok(a.value)
}

pub open spec fn assignments_ok(assigns: Seq<Assignment>) -> bool
    decreases assigns,
{
    forall|i: int| 0 <= i < assigns.len() ==> assignment_ok(#[trigger] assigns[i])
}

pub open spec fn order_by_ok(os: Seq<OrderByExpr>) -> bool
    decreases os,
{
    forall|i: int| 0 <= i < os.len() ==> expr_ok(#[trigger] os[i].expr)
}

/// The INSERT shape: either values rows or a select source, never neither
/// and never both; with named columns every row has the column arity.
pub open spec fn insert_shape_ok(
    columns: Seq<String>,
    values: Seq<Vec<Expression>>,
    select: Option<Box<Statement>>,
) -> bool {
    match select {
        Option::Some(q) => values.len() == 0 && *q is Select,
        Option::None => values.len() > 0 && (columns.len() > 0 ==> forall|i: int|
            0 <= i < values.len() ==> #[trigger] values[i]@.len() == columns.len()),
    }
}

/// The single meaning of a valid statement: what the validator accepts and
/// what every `Ok` result of the parse entry point satisfies.
pub open spec fn stmt_ok(s: Statement) -> bool
    decreases s,
{
    match s {
        Statement::Go { read_only, db_version } => opt_name_ok(db_version),
        Statement::Commit => true,
        Statement::TimeTravel { version, savepoint } => opt_name_ok(version) && opt_name_ok(
            savepoint,
        ),
        Statement::Rollback { version, savepoint } => opt_name_ok(version) && opt_name_ok(
            savepoint,
        ),
        Statement::Release { savepoint } => savepoint@.len() > 0,
        Statement::Explain { statement } => stmt_ok(*statement),
        Statement::Create { object_type, if_not_exists, name, columns, constraints, options, with } => {
            &&& name@.len() > 0
            &&& forall|i: int| 0 <= i < columns.len() ==> column_ok(#[trigger] columns[i])
            &&& forall|i: int| 0 <= i < constraints.len() ==> constraint_ok(#[trigger] constraints[i])
            &&& options_ok(options@)
            &&& match with {
                Option::Some(w) => options_ok(w.options@),
                Option::None => true,
            }
        },
        Statement::Alter { object_type, name, operation } => {
            &&& name@.len() > 0
            &&& match operation {
                AlterOperation::AddColumn(c) => column_ok(c),
                AlterOperation::DropColumn(col) => col@.len() > 0,
                AlterOperation::RenameColumn { old_name, new_name } => old_name@.len() > 0
                    && new_name@.len() > 0,
            }
        },
        Statement::Drop { object_type, if_exists, name, cascade } => name@.len() > 0,
        Statement::Truncate { table_name } => table_name@.len() > 0,
        Statement::Rename { object_type, name, new_name } => name@.len() > 0 && new_name@.len()
            > 0,
        Statement::Insert { table_name, columns, values, select, on_conflict } => {
            &&& table_name@.len() > 0
            &&& forall|i: int| 0 <= i < columns.len() ==> #[trigger] columns[i]@.len() > 0
            &&& insert_shape_ok(columns@, values@, select)
            &&& forall|i: int| 0 <= i < values.len() ==> exprs_ok(#[trigger] values[i]@)
            &&& match select {
                Option::Some(q) => stmt_ok(*q),
                Option::None => true,
            }
            &&& match on_conflict {
                Option::Some(OnConflict::DoUpdate(assigns)) => assigns.len() > 0
                    && assignments_ok(assigns@),
                _ => true,
            }
        },
        Statement::Update { table_name, assignments, selection } => {
            &&& table_name@.len() > 0
            &&& assignments.len() > 0
            &&& assignments_ok(assignments@)
            &&& opt_expr_ok(selection)
        },
        Statement::Delete { table_name, selection } => table_name@.len() > 0 && opt_expr_ok(
            selection,
        ),
        Statement::Select {
            distinct,
            projection,
            from,
            selection,
            group_by,
            having,
            order_by,
            limit,
            offset,
        } => {
            &&& projection.len() > 0
            &&& forall|i: int| 0 <= i < projection.len() ==> select_item_ok(#[trigger] projection[i])
            &&& from.len() > 0
            &&& forall|i: int| 0 <= i < from.len() ==> from_item_ok(#[trigger] from[i])
            &&& opt_expr_ok(selection)
            &&& exprs_ok(group_by@)
            &&& opt_expr_ok(having)
            &&& order_by_ok(order_by@)
            &&& limit_ok(limit)
            &&& limit_ok(offset)
        },
        Statement::Grant { privilege, object_type, on_name, to_name } => on_name@.len() > 0
            && to_name@.len() > 0,
        Statement::Revoke { privilege, object_type, on_name, from_name } => on_name@.len() > 0
            && from_name@.len() > 0,
        Statement::SetVariable { variable, value } => variable@.len() > 0 && expr_ok(value),
        Statement::Show { variable } => variable@.len() > 0,
        Statement::Start { transaction } => true,
        Statement::End => true,
        Statement::Traverse { start, edge, end, where_clause, order_by, limit, offset } => {
            &&& start.len() > 0
            &&& end.len() > 0
            &&& exprs_ok(start@)
            &&& exprs_ok(edge@)
            &&& exprs_ok(end@)
            &&& opt_expr_ok(where_clause)
            &&& order_by_ok(order_by@)
            &&& limit_ok(limit)
            &&& limit_ok(offset)
        },
        Statement::CreateEdge { from, to, edge, properties } => {
            &&& from.len() > 0
            &&& to.len() > 0
            &&& exprs_ok(from@)
            &&& exprs_ok(to@)
            &&& exprs_ok(edge@)
            &&& assignments_ok(properties@)
        },
        Statement::DeleteEdge { from, to, edge } => {
            &&& from.len() > 0
            &&& to.len() > 0
            &&& exprs_ok(from@)
            &&& exprs_ok(to@)
            &&& exprs_ok(edge@)
        },
        Statement::ParseStruct { json, schema } => expr_ok(json) && expr_ok(schema),
        Statement::ParseArray { json, schema } => expr_ok(json) && expr_ok(schema),
        Statement::CreateModel { name, model_type, options } => name@.len() > 0 && options_ok(
            options@,
        ),
        Statement::TrainModel { name, data, options } => name@.len() > 0 && expr_ok(data)
            && options_ok(options@),
        Statement::Predict { model, data, options } => expr_ok(model) && expr_ok(data)
            && options_ok(options@),
        Statement::Evaluate { model, data, options } => expr_ok(model) && expr_ok(data)
            && options_ok(options@),
        Statement::Cast { expr, data_type } => expr_ok(expr),
        Statement::Call { name, args } => name@.len() > 0 && exprs_ok(args@),
        Statement::CreateViz { name, viz_type, options } => name@.len() > 0 && options_ok(options@),
        Statement::ShowViz { name, options } => name@.len() > 0 && options_ok(options@),
        Statement::AlterViz { name, options } => name@.len() > 0 && options_ok(options@),
        Statement::DropViz { name } => name@.len() > 0,
        Statement::AttachViz { table_name, column_name, viz_name } => table_name@.len() > 0
            && opt_name_ok(column_name) && viz_name@.len() > 0,
        Statement::DetachViz { table_name, viz_name } => table_name@.len() > 0 && viz_name@.len()
            > 0,
    }
}

/// A string is a non-empty identifier.
fn nonempty(s: &String) -> (r: bool)
    ensures
        r == (s@.len() > 0),
{
    s.as_str().unicode_len() > 0
}

fn check_name(s: &String) -> (r: Result<(), ValidationError>)
    ensures
        r is Ok <==> s@.len() > 0,
{
    if nonempty(s) {
        Ok(())
    } else {
        Err(ValidationError::MalformedIdentifier)
    }
}

fn check_opt_name(o: &Option<String>) -> (r: Result<(), ValidationError>)
    ensures
        r is Ok <==> opt_name_ok(*o),
{
    match o {
        Option::Some(s) => check_name(s),
        Option::None => Ok(()),
    }
}

fn check_names(ns: &Vec<String>) -> (r: Result<(), ValidationError>)
    ensures
        r is Ok <==> (forall|i: int| 0 <= i < ns@.len() ==> #[trigger] ns@[i]@.len() > 0),
{
    let mut i: usize = 0;
    while i < ns.len()
        invariant
            i <= ns@.len(),
            forall|j: int| 0 <= j < i ==> #[trigger] ns@[j]@.len() > 0,
        decreases ns@.len() - i,
    {
        if !nonempty(&ns[i]) {
            return Err(ValidationError::MalformedIdentifier);
        }
        i += 1;
    }
    Ok(())
}

fn check_value(v: &Value) -> (r: Result<(), ValidationError>)
    ensures
        r is Ok <==> value_ok(*v),
{
    match v {
        Value::Number(s) => {
            if nonempty(s) {
                Ok(())
            } else {
                Err(ValidationError::MalformedExpression)
            }
        },
        _ => Ok(()),
    }
}

fn check_options(os: &Vec<TableOption>) -> (r: Result<(), ValidationError>)
    ensures
        r is Ok <==> options_ok(os@),
{
    let mut i: usize = 0;
    while i < os.len()
        invariant
            i <= os@.len(),
            forall|j: int| 0 <= j < i ==> option_ok(#[trigger] os@[j]),
        decreases os@.len() - i,
    {
        if !nonempty(&os[i].name) {
            return Err(ValidationError::MalformedIdentifier);
        }
        if let Err(e) = check_value(&os[i].value) {
            return Err(e);
        }
        i += 1;
    }
    Ok(())
}

/// Decides `limit_ok`: absent, or a non-negative integer literal.
fn check_limit(l: &Option<Box<Expression>>) -> (r: Result<(), ValidationError>)
    ensures
        r is Ok <==> limit_ok(*l),
{
    match l {
        Option::None => Ok(()),
        Option::Some(e) => match &**e {
            Expression::Literal { value: Value::Number(s) } => {
                if nonneg_int_text(s.as_str()) {
                    Ok(())
                } else {
                    Err(ValidationError::NegativeLimitOrOffset)
                }
            },
            _ => Err(ValidationError::NegativeLimitOrOffset),
        },
    }
}

/// Decides `expr_ok` for one expression node.
fn check_expr(e: &Expression) -> (r: Result<(), ValidationError>)
    ensures
        r is Ok <==> expr_ok(*e),
    decreases *e, 0nat,
{
    match e {
        Expression::BinaryOp { left, op, right } => {
            if let Err(er) = check_expr(left) {
                return Err(er);
            }
            check_expr(right)
        },
        Expression::UnaryOp { op, expr } => check_expr(expr),
        Expression::Function { name, args } => {
            if let Err(er) = check_name(name) {
                return Err(er);
            }
            check_exprs(args)
        },
        Expression::Cast { expr, data_type } => check_expr(expr),
        Expression::Case { operand, conditions, results, else_result } => {
            if conditions.len() != results.len() || conditions.len() == 0 {
                return Err(ValidationError::MalformedExpression);
            }
            if let Option::Some(b) = operand {
                if let Err(er) = check_expr(b) {
                    return Err(er);
                }
            }
            if let Err(er) = check_exprs(conditions) {
                return Err(er);
            }
            if let Err(er) = check_exprs(results) {
                return Err(er);
            }
            if let Option::Some(b) = else_result {
                if let Err(er) = check_expr(b) {
                    return Err(er);
                }
            }
            Ok(())
        },
        Expression::Exists { subquery } => check_subquery(subquery),
        Expression::Select { subquery } => check_subquery(subquery),
        Expression::Column { name } => check_name(name),
        Expression::Literal { value } => check_value(value),
        Expression::Wildcard => Ok(()),
    }
}

/// Decides that a boxed statement is a valid SELECT.
fn check_subquery(q: &Box<Statement>) -> (r: Result<(), ValidationError>)
    ensures
        r is Ok <==> (**q is Select && stmt_ok(**q)),
    decreases **q, 2nat,
{
    if !matches!(&**q, Statement::Select { .. }) {
        return Err(ValidationError::MalformedSubquery);
    }
    validate_statement(&**q)
}

fn check_exprs(es: &Vec<Expression>) -> (r: Result<(), ValidationError>)
    ensures
        r is Ok <==> exprs_ok(es@),
    decreases *es, 0nat,
{
    let mut i: usize = 0;
    while i < es.len()
        invariant
            i <= es@.len(),
            forall|j: int| 0 <= j < i ==> expr_ok(#[trigger] es@[j]),
        decreases es@.len() - i,
    {
        if let Err(e) = check_expr(&es[i]) {
            return Err(e);
        }
        i += 1;
    }
    Ok(())
}

fn check_opt_expr(o: &Option<Box<Expression>>) -> (r: Result<(), ValidationError>)
    ensures
        r is Ok <==> opt_expr_ok(*o),
    decreases *o, 0nat,
{
    match o {
        Option::Some(e) => check_expr(e),
        Option::None => Ok(()),
    }
}

fn check_assignments(assigns: &Vec<Assignment>) -> (r: Result<(), ValidationError>)
    ensures
        r is Ok <==> assignments_ok(assigns@),
    decreases *assigns, 0nat,
{
    let mut i: usize = 0;
    while i < assigns.len()
        invariant
            i <= assigns@.len(),
            forall|j: int| 0 <= j < i ==> assignment_ok(#[trigger] assigns@[j]),
        decreases assigns@.len() - i,
    {
        if !nonempty(&assigns[i].id) {
            return Err(ValidationError::MalformedIdentifier);
        }
        if let Err(e) = check_expr(&assigns[i].value) {
            return Err(e);
        }
        i += 1;
    }
    Ok(())
}

fn check_order_by(os: &Vec<OrderByExpr>) -> (r: Result<(), ValidationError>)
    ensures
        r is Ok <==> order_by_ok(os@),
    decreases *os, 0nat,
{
    let mut i: usize = 0;
    while i < os.len()
        invariant
            i <= os@.len(),
            forall|j: int| 0 <= j < i ==> expr_ok(#[trigger] os@[j].expr),
        decreases os@.len() - i,
    {
        if let Err(e) = check_expr(&os[i].expr) {
            return Err(e);
        }
        i += 1;
    }
    Ok(())
}

fn check_column(c: &Column) -> (r: Result<(), ValidationError>)
    ensures
        r is Ok <==> column_ok(*c),
    decreases *c, 0nat,
{
    if !nonempty(&c.name) {
        return Err(ValidationError::MalformedIdentifier);
    }
    if matches!(c.constraint_type, Option::Some(ConstraintType::PrimaryKey)) && c.nullable {
        return Err(ValidationError::ConflictingConstraints);
    }
    if let Option::Some(d) = &c.default {
        if let Err(e) = check_expr(d) {
            return Err(e);
        }
    }
    check_options(&c.options)
}

fn check_columns(cs: &Vec<Column>) -> (r: Result<(), ValidationError>)
    ensures
        r is Ok <==> (forall|i: int| 0 <= i < cs@.len() ==> column_ok(#[trigger] cs@[i])),
    decreases *cs, 0nat,
{
    let mut i: usize = 0;
    while i < cs.len()
        invariant
            i <= cs@.len(),
            forall|j: int| 0 <= j < i ==> column_ok(#[trigger] cs@[j]),
        decreases cs@.len() - i,
    {
        if let Err(e) = check_column(&cs[i]) {
            return Err(e);
        }
        i += 1;
    }
    Ok(())
}

fn check_constraints(cs: &Vec<Constraint>) -> (r: Result<(), ValidationError>)
    ensures
        r is Ok <==> (forall|i: int| 0 <= i < cs@.len() ==> constraint_ok(#[trigger] cs@[i])),
    decreases *cs, 0nat,
{
    let mut i: usize = 0;
    while i < cs.len()
        invariant
            i <= cs@.len(),
            forall|j: int| 0 <= j < i ==> constraint_ok(#[trigger] cs@[j]),
        decreases cs@.len() - i,
    {
        let ok = match &cs[i] {
            Constraint::PrimaryKey(cols) => {
                if cols.len() == 0 {
                    return Err(ValidationError::MalformedIdentifier);
                }
                check_names(cols)
            },
            Constraint::Unique(cols) => {
                if cols.len() == 0 {
                    return Err(ValidationError::MalformedIdentifier);
                }
                check_names(cols)
            },
            Constraint::Check(e) => check_expr(e),
        };
        if let Err(e) = ok {
            return Err(e);
        }
        i += 1;
    }
    Ok(())
}

fn check_select_items(items: &Vec<SelectItem>) -> (r: Result<(), ValidationError>)
    ensures
        r is Ok <==> (forall|i: int| 0 <= i < items@.len() ==> select_item_ok(#[trigger] items@[i])),
    decreases *items, 0nat,
{
    let mut i: usize = 0;
    while i < items.len()
        invariant
            i <= items@.len(),
            forall|j: int| 0 <= j < i ==> select_item_ok(#[trigger] items@[j]),
        decreases items@.len() - i,
    {
        let ok = match &items[i] {
            SelectItem::Wildcard => Ok(()),
            SelectItem::UnnamedExpr(e) => check_expr(e),
            SelectItem::ExprWithAlias { expr, alias } => {
                if let Err(e) = check_expr(expr) {
                    return Err(e);
                }
                check_name(alias)
            },
        };
        if let Err(e) = ok {
            return Err(e);
        }
        i += 1;
    }
    Ok(())
}

fn check_from_item(f: &FromItem) -> (r: Result<(), ValidationError>)
    ensures
        r is Ok <==> from_item_ok(*f),
    decreases *f, 0nat,
{
    match f {
        FromItem::Table { name, alias } => {
            if let Err(e) = check_name(name) {
                return Err(e);
            }
            check_opt_name(alias)
        },
        FromItem::Join { left, right, join_operator, join_constraint } => {
            if let Err(e) = check_from_item(left) {
                return Err(e);
            }
            if let Err(e) = check_from_item(right) {
                return Err(e);
            }
            match join_constraint {
                Option::Some(JoinConstraint::On(e)) => check_expr(e),
                Option::Some(JoinConstraint::Using(cols)) => {
                    if cols.len() == 0 {
                        return Err(ValidationError::MalformedIdentifier);
                    }
                    check_names(cols)
                },
                Option::None => Ok(()),
            }
        },
        FromItem::Subquery { query, alias } => {
            if let Err(e) = check_subquery(query) {
                return Err(e);
            }
            check_name(alias)
        },
    }
}

fn check_from_items(fs: &Vec<FromItem>) -> (r: Result<(), ValidationError>)
    ensures
        r is Ok <==> (forall|i: int| 0 <= i < fs@.len() ==> from_item_ok(#[trigger] fs@[i])),
    decreases *fs, 0nat,
{
    let mut i: usize = 0;
    while i < fs.len()
        invariant
            i <= fs@.len(),
            forall|j: int| 0 <= j < i ==> from_item_ok(#[trigger] fs@[j]),
        decreases fs@.len() - i,
    {
        if let Err(e) = check_from_item(&fs[i]) {
            return Err(e);
        }
        i += 1;
    }
    Ok(())
}

/// Decides the row part of the INSERT shape: with named columns every values
/// row has the column arity, and every row expression is well formed.
fn check_insert_rows(columns: &Vec<String>, values: &Vec<Vec<Expression>>) -> (r: Result<
    (),
    ValidationError,
>)
    ensures
        r is Ok <==> ((columns@.len() > 0 ==> forall|i: int|
            0 <= i < values@.len() ==> #[trigger] values@[i]@.len() == columns@.len()) && (
        forall|i: int| 0 <= i < values@.len() ==> exprs_ok(#[trigger] values@[i]@))),
    decreases *values, 0nat,
{
    let mut i: usize = 0;
    while i < values.len()
        invariant
            i <= values@.len(),
            forall|j: int| 0 <= j < i ==> exprs_ok(#[trigger] values@[j]@),
            forall|j: int|
                0 <= j < i && columns@.len() > 0 ==> #[trigger] values@[j]@.len()
                    == columns@.len(),
        decreases values@.len() - i,
    {
        if columns.len() > 0 && values[i].len() != columns.len() {
            return Err(ValidationError::InsertShape);
        }
        if let Err(e) = check_exprs(&values[i]) {
            return Err(e);
        }
        i += 1;
    }
    Ok(())
}

/// Transaction-control statements.
fn validate_tcl(s: &Statement) -> (r: Result<(), ValidationError>)
    requires
        *s is Go || *s is Commit || *s is TimeTravel || *s is Rollback || *s is Release || *s is Explain,
    ensures
        r is Ok <==> stmt_ok(*s),
    decreases *s, 0nat,
{
    match s {
        Statement::Go { read_only, db_version } => check_opt_name(db_version),
        Statement::Commit => Ok(()),
        Statement::TimeTravel { version, savepoint } => {
            if let Err(e) = check_opt_name(version) {
                return Err(e);
            }
            check_opt_name(savepoint)
        },
        Statement::Rollback { version, savepoint } => {
            if let Err(e) = check_opt_name(version) {
                return Err(e);
            }
            check_opt_name(savepoint)
        },
        Statement::Release { savepoint } => check_name(savepoint),
        Statement::Explain { statement } => validate_statement(statement),
        // not reached: the entry point routes only this family here
        _ => Ok(()),
    }
}


/// Data-definition statements.
fn validate_ddl(s: &Statement) -> (r: Result<(), ValidationError>)
    requires
        *s is Create || *s is Alter || *s is Drop || *s is Truncate || *s is Rename,
    ensures
        r is Ok <==> stmt_ok(*s),
    decreases *s, 0nat,
{
    match s {
        Statement::Create { object_type, if_not_exists, name, columns, constraints, options, with } => {
            if let Err(e) = check_name(name) {
                return Err(e);
            }
            if let Err(e) = check_columns(columns) {
                return Err(e);
            }
            if let Err(e) = check_constraints(constraints) {
                return Err(e);
            }
            if let Err(e) = check_options(options) {
                return Err(e);
            }
            match with {
                Option::Some(w) => check_options(&w.options),
                Option::None => Ok(()),
            }
        },
        Statement::Alter { object_type, name, operation } => {
            if let Err(e) = check_name(name) {
                return Err(e);
            }
            match operation {
                AlterOperation::AddColumn(c) => check_column(c),
                AlterOperation::DropColumn(col) => check_name(col),
                AlterOperation::RenameColumn { old_name, new_name } => {
                    if let Err(e) = check_name(old_name) {
                        return Err(e);
                    }
                    check_name(new_name)
                },
            }
        },
        Statement::Drop { object_type, if_exists, name, cascade } => check_name(name),
        Statement::Truncate { table_name } => check_name(table_name),
        Statement::Rename { object_type, name, new_name } => {
            if let Err(e) = check_name(name) {
                return Err(e);
            }
            check_name(new_name)
        },
        // not reached: the entry point routes only this family here
        _ => Ok(()),
    }
}


/// Data-manipulation statements.
fn validate_dml(s: &Statement) -> (r: Result<(), ValidationError>)
    requires
        *s is Insert || *s is Update || *s is Delete || *s is Select,
    ensures
        r is Ok <==> stmt_ok(*s),
    decreases *s, 0nat,
{
    match s {
        Statement::Insert { table_name, columns, values, select, on_conflict } => {
            if let Err(e) = check_name(table_name) {
                return Err(e);
            }
            if let Err(e) = check_names(columns) {
                return Err(e);
            }
            match select {
                Option::Some(q) => {
                    if values.len() != 0 {
                        return Err(ValidationError::InsertShape);
                    }
                    if !matches!(&**q, Statement::Select { .. }) {
                        return Err(ValidationError::InsertShape);
                    }
                    if let Err(e) = validate_statement(&**q) {
                        return Err(e);
                    }
                },
                Option::None => {
                    if values.len() == 0 {
                        return Err(ValidationError::InsertShape);
                    }
                    if let Err(e) = check_insert_rows(columns, values) {
                        return Err(e);
                    }
                },
            }
            match on_conflict {
                Option::Some(OnConflict::DoUpdate(assigns)) => {
                    if assigns.len() == 0 {
                        return Err(ValidationError::InsertShape);
                    }
                    check_assignments(assigns)
                },
                _ => Ok(()),
            }
        },
        Statement::Update { table_name, assignments, selection } => {
            if let Err(e) = check_name(table_name) {
                return Err(e);
            }
            if assignments.len() == 0 {
                return Err(ValidationError::MalformedIdentifier);
            }
            if let Err(e) = check_assignments(assignments) {
                return Err(e);
            }
            check_opt_expr(selection)
        },
        Statement::Delete { table_name, selection } => {
            if let Err(e) = check_name(table_name) {
                return Err(e);
            }
            check_opt_expr(selection)
        },
        Statement::Select {
            distinct,
            projection,
            from,
            selection,
            group_by,
            having,
            order_by,
            limit,
            offset,
        } => {
            if projection.len() == 0 {
                return Err(ValidationError::MalformedExpression);
            }
            if let Err(e) = check_select_items(projection) {
                return Err(e);
            }
            if from.len() == 0 {
                return Err(ValidationError::MalformedExpression);
            }
            if let Err(e) = check_from_items(from) {
                return Err(e);
            }
            if let Err(e) = check_opt_expr(selection) {
                return Err(e);
            }
            if let Err(e) = check_exprs(group_by) {
                return Err(e);
            }
            if let Err(e) = check_opt_expr(having) {
                return Err(e);
            }
            if let Err(e) = check_order_by(order_by) {
                return Err(e);
            }
            if let Err(e) = check_limit(limit) {
                return Err(e);
            }
            check_limit(offset)
        },
        // not reached: the entry point routes only this family here
        _ => Ok(()),
    }
}


/// Data-control and session-control statements.
fn validate_session(s: &Statement) -> (r: Result<(), ValidationError>)
    requires
        *s is Grant || *s is Revoke || *s is SetVariable || *s is Show || *s is Start || *s is End,
    ensures
        r is Ok <==> stmt_ok(*s),
    decreases *s, 0nat,
{
    match s {
        Statement::Grant { privilege, object_type, on_name, to_name } => {
            if let Err(e) = check_name(on_name) {
                return Err(e);
            }
            check_name(to_name)
        },
        Statement::Revoke { privilege, object_type, on_name, from_name } => {
            if let Err(e) = check_name(on_name) {
                return Err(e);
            }
            check_name(from_name)
        },
        Statement::SetVariable { variable, value } => {
            if let Err(e) = check_name(variable) {
                return Err(e);
            }
            check_expr(value)
        },
        Statement::Show { variable } => check_name(variable),
        Statement::Start { transaction } => Ok(()),
        Statement::End => Ok(()),
        // not reached: the entry point routes only this family here
        _ => Ok(()),
    }
}


/// Graph and semi-structured statements.
fn validate_graph(s: &Statement) -> (r: Result<(), ValidationError>)
    requires
        *s is Traverse || *s is CreateEdge || *s is DeleteEdge || *s is ParseStruct || *s is ParseArray,
    ensures
        r is Ok <==> stmt_ok(*s),
    decreases *s, 0nat,
{
    match s {
        Statement::Traverse { start, edge, end, where_clause, order_by, limit, offset } => {
            if start.len() == 0 || end.len() == 0 {
                return Err(ValidationError::MalformedExpression);
            }
            if let Err(e) = check_exprs(start) {
                return Err(e);
            }
            if let Err(e) = check_exprs(edge) {
                return Err(e);
            }
            if let Err(e) = check_exprs(end) {
                return Err(e);
            }
            if let Err(e) = check_opt_expr(where_clause) {
                return Err(e);
            }
            if let Err(e) = check_order_by(order_by) {
                return Err(e);
            }
            if let Err(e) = check_limit(limit) {
                return Err(e);
            }
            check_limit(offset)
        },
        Statement::CreateEdge { from, to, edge, properties } => {
            if from.len() == 0 || to.len() == 0 {
                return Err(ValidationError::MalformedExpression);
            }
            if let Err(e) = check_exprs(from) {
                return Err(e);
            }
            if let Err(e) = check_exprs(to) {
                return Err(e);
            }
            if let Err(e) = check_exprs(edge) {
                return Err(e);
            }
            check_assignments(properties)
        },
        Statement::DeleteEdge { from, to, edge } => {
            if from.len() == 0 || to.len() == 0 {
                return Err(ValidationError::MalformedExpression);
            }
            if let Err(e) = check_exprs(from) {
                return Err(e);
            }
            if let Err(e) = check_exprs(to) {
                return Err(e);
            }
            check_exprs(edge)
        },
        Statement::ParseStruct { json, schema } => {
            if let Err(e) = check_expr(json) {
                return Err(e);
            }
            check_expr(schema)
        },
        Statement::ParseArray { json, schema } => {
            if let Err(e) = check_expr(json) {
                return Err(e);
            }
            check_expr(schema)
        },
        // not reached: the entry point routes only this family here
        _ => Ok(()),
    }
}


/// Model, visualization and call statements.
fn validate_model_viz(s: &Statement) -> (r: Result<(), ValidationError>)
    requires
        *s is CreateModel || *s is TrainModel || *s is Predict || *s is Evaluate || *s is Cast || *s is Call || *s is CreateViz || *s is ShowViz || *s is AlterViz || *s is DropViz || *s is AttachViz || *s is DetachViz,
    ensures
        r is Ok <==> stmt_ok(*s),
    decreases *s, 0nat,
{
    match s {
        Statement::CreateModel { name, model_type, options } => {
            if let Err(e) = check_name(name) {
                return Err(e);
            }
            check_options(options)
        },
        Statement::TrainModel { name, data, options } => {
            if let Err(e) = check_name(name) {
                return Err(e);
            }
            if let Err(e) = check_expr(data) {
                return Err(e);
            }
            check_options(options)
        },
        Statement::Predict { model, data, options } => {
            if let Err(e) = check_expr(model) {
                return Err(e);
            }
            if let Err(e) = check_expr(data) {
                return Err(e);
            }
            check_options(options)
        },
        Statement::Evaluate { model, data, options } => {
            if let Err(e) = check_expr(model) {
                return Err(e);
            }
            if let Err(e) = check_expr(data) {
                return Err(e);
            }
            check_options(options)
        },
        Statement::Cast { expr, data_type } => check_expr(expr),
        Statement::Call { name, args } => {
            if let Err(e) = check_name(name) {
                return Err(e);
            }
            check_exprs(args)
        },
        Statement::CreateViz { name, viz_type, options } => {
            if let Err(e) = check_name(name) {
                return Err(e);
            }
            check_options(options)
        },
        Statement::ShowViz { name, options } => {
            if let Err(e) = check_name(name) {
                return Err(e);
            }
            check_options(options)
        },
        Statement::AlterViz { name, options } => {
            if let Err(e) = check_name(name) {
                return Err(e);
            }
            check_options(options)
        },
        Statement::DropViz { name } => check_name(name),
        Statement::AttachViz { table_name, column_name, viz_name } => {
            if let Err(e) = check_name(table_name) {
                return Err(e);
            }
            if let Err(e) = check_opt_name(column_name) {
                return Err(e);
            }
            check_name(viz_name)
        },
        Statement::DetachViz { table_name, viz_name } => {
            if let Err(e) = check_name(table_name) {
                return Err(e);
            }
            check_name(viz_name)
        },
        // not reached: the entry point routes only this family here
        _ => Ok(()),
    }
}

/// The expression side of the validator: returns `Ok` exactly when the
/// expression is structurally valid in the sense of `expr_ok`.
pub fn check_expression(e: &Expression) -> (r: Result<(), ValidationError>)
    ensures
        r is Ok <==> expr_ok(*e),
    decreases *e, 1nat,
{
    check_expr(e)
}

/// The validator entry point: returns `Ok` exactly when the statement is
/// structurally valid in the sense of `stmt_ok`, and a typed error
/// otherwise — never a panic.
pub fn validate_statement(s: &Statement) -> (r: Result<(), ValidationError>)
    ensures
        r is Ok <==> stmt_ok(*s),
    decreases *s, 1nat,
{
    match s {
        Statement::Go { .. } | Statement::Commit | Statement::TimeTravel { .. } | Statement::Rollback { .. } | Statement::Release { .. } | Statement::Explain { .. } => validate_tcl(s),
        Statement::Create { .. } | Statement::Alter { .. } | Statement::Drop { .. } | Statement::Truncate { .. } | Statement::Rename { .. } => validate_ddl(s),
        Statement::Insert { .. } | Statement::Update { .. } | Statement::Delete { .. } | Statement::Select { .. } => validate_dml(s),
        Statement::Grant { .. } | Statement::Revoke { .. } | Statement::SetVariable { .. } | Statement::Show { .. } | Statement::Start { .. } | Statement::End => validate_session(s),
        Statement::Traverse { .. } | Statement::CreateEdge { .. } | Statement::DeleteEdge { .. } | Statement::ParseStruct { .. } | Statement::ParseArray { .. } => validate_graph(s),
        Statement::CreateModel { .. } | Statement::TrainModel { .. } | Statement::Predict { .. } | Statement::Evaluate { .. } | Statement::Cast { .. } | Statement::Call { .. } | Statement::CreateViz { .. } | Statement::ShowViz { .. } | Statement::AlterViz { .. } | Statement::DropViz { .. } | Statement::AttachViz { .. } | Statement::DetachViz { .. } => validate_model_viz(s),
    }
}

} // verus!
