//! The canonical renderer: one textual form for every statement, chosen so
//! that parsing it back reproduces the same tree — expressions are fully
//! parenthesized, keywords are upper case, optional clauses are emitted
//! exactly when present. This is the printer the round-trip property of the
//! front end is stated over.

use vstd::prelude::*;
use crate::error::GqlError;
use crate::parser::{is_table_t, parse, select_defaults_example};
use crate::ast::{
    AlterOperation, Assignment, BinaryOperator, Column, Constraint, ConstraintType, DataType,
    Expression, FromItem, JoinConstraint, JoinOperator, ModelType, ObjectType, OnConflict,
    OrderByExpr, Privilege, SelectItem, Statement, TableOption, UnaryOperator, Value, VizType,
};

verus! {

/// The text a DDL object kind renders as.
pub open spec fn object_type_text(ot: ObjectType) -> Seq<char> {
    match ot {
        ObjectType::Table => "TABLE"@,
        ObjectType::Index => "INDEX"@,
        ObjectType::View => "VIEW"@,
        ObjectType::Model => "MODEL"@,
        ObjectType::Viz => "VIZ"@,
    }
}

/// The text a privilege renders as.
pub open spec fn privilege_text(p: Privilege) -> Seq<char> {
    match p {
        Privilege::Select => "SELECT"@,
        Privilege::Insert => "INSERT"@,
        Privilege::Update => "UPDATE"@,
        Privilege::Delete => "DELETE"@,
        Privilege::All => "ALL"@,
    }
}

/// The ` VERSION v`/` SAVEPOINT s` tail of ROLLBACK and TIMETRAVEL.
pub open spec fn version_savepoint_text(
    version: Option<String>,
    savepoint: Option<String>,
) -> Seq<char> {
    let a = Seq::<char>::empty();
    let b = match version {
        Option::Some(v) => a + " VERSION "@ + v@,
        Option::None => a,
    };
    match savepoint {
        Option::Some(sp) => b + " SAVEPOINT "@ + sp@,
        Option::None => b,
    }
}

/// The exact canonical text of the statements whose rendering is a plain
/// concatenation of keywords and names; `None` for the clause-bearing
/// statements, whose text is pinned by the round-trip tests instead.
pub open spec fn leaf_text(s: Statement) -> Option<Seq<char>> {
    match s {
        Statement::Commit => Option::Some("COMMIT"@),
        Statement::End => Option::Some("END"@),
        Statement::Start { transaction } => Option::Some(
            if transaction {
                "START"@ + " TRANSACTION"@
            } else {
                "START"@
            },
        ),
        Statement::Go { read_only, db_version } => {
            let a = if read_only {
                "GO"@ + " READ ONLY"@
            } else {
                "GO"@
            };
            Option::Some(
                match db_version {
                    Option::Some(v) => a + " VERSION "@ + v@,
                    Option::None => a,
                },
            )
        },
        Statement::TimeTravel { version, savepoint } => Option::Some(
            "TIMETRAVEL"@ + version_savepoint_text(version, savepoint),
        ),
        Statement::Rollback { version, savepoint } => Option::Some(
            "ROLLBACK"@ + version_savepoint_text(version, savepoint),
        ),
        Statement::Release { savepoint } => Option::Some("RELEASE SAVEPOINT "@ + savepoint@),
        Statement::Truncate { table_name } => Option::Some("TRUNCATE TABLE "@ + table_name@),
        Statement::Rename { object_type, name, new_name } => Option::Some(
            "RENAME "@ + object_type_text(object_type) + " "@ + name@ + " TO "@ + new_name@,
        ),
        Statement::Drop { object_type, if_exists, name, cascade } => {
            let a = "DROP "@ + object_type_text(object_type);
            let b = if if_exists {
                a + " IF EXISTS"@
            } else {
                a
            };
            let c = b + " "@ + name@;
            Option::Some(
                if cascade {
                    c + " CASCADE"@
                } else {
                    c
                },
            )
        },
        Statement::Grant { privilege, object_type, on_name, to_name } => Option::Some(
            "GRANT "@ + privilege_text(privilege) + " ON "@ + object_type_text(object_type) + " "@
                + on_name@ + " TO "@ + to_name@,
        ),
        Statement::Revoke { privilege, object_type, on_name, from_name } => Option::Some(
            "REVOKE "@ + privilege_text(privilege) + " ON "@ + object_type_text(object_type)
                + " "@ + on_name@ + " FROM "@ + from_name@,
        ),
        Statement::Show { variable } => Option::Some("SHOW "@ + variable@),
        Statement::DropViz { name } => Option::Some("DROP VIZ "@ + name@),
        Statement::AttachViz { table_name, column_name, viz_name } => {
            let a = "ATTACH VIZ "@ + viz_name@ + " TO "@ + table_name@;
            Option::Some(
                match column_name {
                    Option::Some(c) => a + " COLUMN "@ + c@,
                    Option::None => a,
                },
            )
        },
        Statement::DetachViz { table_name, viz_name } => Option::Some(
            "DETACH VIZ "@ + viz_name@ + " FROM "@ + table_name@,
        ),
        _ => Option::None,
    }
}

fn r_value(v: &Value) -> String {
    match v {
        Value::Number(s) => s.clone(),
        Value::String(s) => {
            let mut out = String::from_str("'");
            out.append(s.as_str());
            out.append("'");
            out
        },
        Value::Boolean(b) => {
            if *b {
                String::from_str("TRUE")
            } else {
                String::from_str("FALSE")
            }
        },
        Value::Null => String::from_str("NULL"),
    }
}

fn r_data_type(dt: &DataType) -> String {
    match dt {
        DataType::Int => String::from_str("INT"),
        DataType::Float => String::from_str("FLOAT"),
        DataType::Text => String::from_str("TEXT"),
        DataType::Boolean => String::from_str("BOOLEAN"),
        DataType::Timestamp => String::from_str("TIMESTAMP"),
        DataType::Binary => String::from_str("BINARY"),
    }
}

fn r_object_type(ot: &ObjectType) -> (r: String)
    ensures
        r@ == object_type_text(*ot),
{
    match ot {
        ObjectType::Table => String::from_str("TABLE"),
        ObjectType::Index => String::from_str("INDEX"),
        ObjectType::View => String::from_str("VIEW"),
        ObjectType::Model => String::from_str("MODEL"),
        ObjectType::Viz => String::from_str("VIZ"),
    }
}

fn r_privilege(p: &Privilege) -> (r: String)
    ensures
        r@ == privilege_text(*p),
{
    match p {
        Privilege::Select => String::from_str("SELECT"),
        Privilege::Insert => String::from_str("INSERT"),
        Privilege::Update => String::from_str("UPDATE"),
        Privilege::Delete => String::from_str("DELETE"),
        Privilege::All => String::from_str("ALL"),
    }
}

fn r_model_type(mt: &ModelType) -> String {
    match mt {
        ModelType::Regression => String::from_str("REGRESSION"),
        ModelType::Classification => String::from_str("CLASSIFICATION"),
        ModelType::Clustering => String::from_str("CLUSTERING"),
    }
}

fn r_viz_type(vt: &VizType) -> String {
    match vt {
        VizType::Bar => String::from_str("BAR"),
        VizType::Line => String::from_str("LINE"),
        VizType::Scatter => String::from_str("SCATTER"),
        VizType::Pie => String::from_str("PIE"),
    }
}

fn r_binop(op: &BinaryOperator) -> String {
    match op {
        BinaryOperator::Plus => String::from_str("+"),
        BinaryOperator::Minus => String::from_str("-"),
        BinaryOperator::Multiply => String::from_str("*"),
        BinaryOperator::Divide => String::from_str("/"),
        BinaryOperator::Modulus => String::from_str("%"),
        BinaryOperator::Equals => String::from_str("="),
        BinaryOperator::NotEquals => String::from_str("<>"),
        BinaryOperator::LessThan => String::from_str("<"),
        BinaryOperator::LessThanOrEquals => String::from_str("<="),
        BinaryOperator::GreaterThan => String::from_str(">"),
        BinaryOperator::GreaterThanOrEquals => String::from_str(">="),
        BinaryOperator::And => String::from_str("AND"),
        BinaryOperator::Or => String::from_str("OR"),
        BinaryOperator::Like => String::from_str("LIKE"),
        BinaryOperator::NotLike => String::from_str("NOT LIKE"),
        BinaryOperator::In => String::from_str("IN"),
        BinaryOperator::NotIn => String::from_str("NOT IN"),
        BinaryOperator::Is => String::from_str("IS"),
        BinaryOperator::IsNot => String::from_str("IS NOT"),
    }
}

fn r_join_op(op: &JoinOperator) -> String {
    match op {
        JoinOperator::Inner => String::from_str("INNER JOIN"),
        JoinOperator::LeftOuter => String::from_str("LEFT OUTER JOIN"),
        JoinOperator::RightOuter => String::from_str("RIGHT OUTER JOIN"),
        JoinOperator::FullOuter => String::from_str("FULL OUTER JOIN"),
    }
}

/// A comma-separated identifier list.
fn r_names(ns: &Vec<String>) -> String {
    let mut out = String::new();
    let mut i: usize = 0;
    while i < ns.len()
        invariant
            i <= ns@.len(),
        decreases ns@.len() - i,
    {
        if i > 0 {
            out.append(", ");
        }
        out.append(ns[i].as_str());
        i += 1;
    }
    out
}

fn r_expr(e: &Expression) -> (r: String)
    decreases *e,
{
    match e {
        Expression::BinaryOp { left, op, right } => {
            let mut out = String::from_str("(");
            let l = r_expr(left);
            out.append(l.as_str());
            out.append(" ");
            let o = r_binop(op);
            out.append(o.as_str());
            out.append(" ");
            let rr = r_expr(right);
            out.append(rr.as_str());
            out.append(")");
            out
        },
        Expression::UnaryOp { op, expr } => {
            let mut out = String::from_str("(");
            match op {
                UnaryOperator::Not => out.append("NOT "),
                UnaryOperator::Minus => out.append("-"),
            }
            let inner = r_expr(expr);
            out.append(inner.as_str());
            out.append(")");
            out
        },
        Expression::Function { name, args } => {
            let mut out = name.clone();
            out.append("(");
            let a = r_exprs(args);
            out.append(a.as_str());
            out.append(")");
            out
        },
        Expression::Cast { expr, data_type } => {
            let mut out = String::from_str("CAST (");
            let inner = r_expr(expr);
            out.append(inner.as_str());
            out.append(" AS ");
            let dt = r_data_type(data_type);
            out.append(dt.as_str());
            out.append(")");
            out
        },
        Expression::Case { operand, conditions, results, else_result } => {
            let mut out = String::from_str("CASE");
            if let Option::Some(op) = operand {
                out.append(" ");
                let o = r_expr(op);
                out.append(o.as_str());
            }
            let mut i: usize = 0;
            while i < conditions.len() && i < results.len()
                invariant
                    i <= conditions@.len(),
                    (decreases_to!(*e => *conditions)),
                    (decreases_to!(*e => *results)),
                decreases conditions@.len() - i,
            {
                out.append(" WHEN ");
                let c = r_expr(&conditions[i]);
                out.append(c.as_str());
                out.append(" THEN ");
                let t = r_expr(&results[i]);
                out.append(t.as_str());
                i += 1;
            }
            if let Option::Some(el) = else_result {
                out.append(" ELSE ");
                let o = r_expr(el);
                out.append(o.as_str());
            }
            out.append(" END");
            out
        },
        Expression::Exists { subquery } => {
            let mut out = String::from_str("EXISTS (");
            let q = r_stmt(subquery);
            out.append(q.as_str());
            out.append(")");
            out
        },
        Expression::Select { subquery } => {
            let mut out = String::from_str("(");
            let q = r_stmt(subquery);
            out.append(q.as_str());
            out.append(")");
            out
        },
        Expression::Column { name } => name.clone(),
        Expression::Literal { value } => r_value(value),
        Expression::Wildcard => String::from_str("*"),
    }
}

/// A comma-separated expression list.
fn r_exprs(es: &Vec<Expression>) -> (r: String)
    decreases *es,
{
    let mut out = String::new();
    let mut i: usize = 0;
    while i < es.len()
        invariant
            i <= es@.len(),
        decreases es@.len() - i,
    {
        if i > 0 {
            out.append(", ");
        }
        let e = r_expr(&es[i]);
        out.append(e.as_str());
        i += 1;
    }
    out
}

fn r_select_items(items: &Vec<SelectItem>) -> (r: String)
    ensures
        items@.len() == 1 && items@[0] == SelectItem::Wildcard ==> r@ == "*"@,
    decreases *items,
{
    let mut out = String::new();
    let mut i: usize = 0;
    while i < items.len()
        invariant
            i <= items@.len(),
            items@.len() == 1 && items@[0] == SelectItem::Wildcard ==> out@ == (if i == 0 {
                Seq::<char>::empty()
            } else {
                Seq::<char>::empty() + "*"@
            }),
        decreases items@.len() - i,
    {
        if i > 0 {
            out.append(", ");
        }
        match &items[i] {
            SelectItem::Wildcard => out.append("*"),
            SelectItem::UnnamedExpr(e) => {
                let t = r_expr(e);
                out.append(t.as_str());
            },
            SelectItem::ExprWithAlias { expr, alias } => {
                let t = r_expr(expr);
                out.append(t.as_str());
                out.append(" AS ");
                out.append(alias.as_str());
            },
        }
        i += 1;
    }
    out
}

fn r_from_item(f: &FromItem) -> (r: String)
    ensures
        is_table_t(*f) ==> r@ == "t"@,
    decreases *f,
{
    match f {
        FromItem::Table { name, alias } => {
            let mut out = name.clone();
            if let Option::Some(a) = alias {
                out.append(" AS ");
                out.append(a.as_str());
            }
            out
        },
        FromItem::Join { left, right, join_operator, join_constraint } => {
            let mut out = r_from_item(left);
            out.append(" ");
            let j = r_join_op(join_operator);
            out.append(j.as_str());
            out.append(" ");
            let rr = r_from_item(right);
            out.append(rr.as_str());
            match join_constraint {
                Option::Some(JoinConstraint::On(e)) => {
                    out.append(" ON ");
                    let t = r_expr(e);
                    out.append(t.as_str());
                },
                Option::Some(JoinConstraint::Using(cols)) => {
                    out.append(" USING (");
                    let t = r_names(cols);
                    out.append(t.as_str());
                    out.append(")");
                },
                Option::None => {},
            }
            out
        },
        FromItem::Subquery { query, alias } => {
            let mut out = String::from_str("(");
            let q = r_stmt(query);
            out.append(q.as_str());
            out.append(") AS ");
            out.append(alias.as_str());
            out
        },
    }
}

fn r_from_items(fs: &Vec<FromItem>) -> (r: String)
    ensures
        fs@.len() == 1 && is_table_t(fs@[0]) ==> r@ == "t"@,
    decreases *fs,
{
    let mut out = String::new();
    let mut i: usize = 0;
    while i < fs.len()
        invariant
            i <= fs@.len(),
            fs@.len() == 1 && is_table_t(fs@[0]) ==> out@ == (if i == 0 {
                Seq::<char>::empty()
            } else {
                Seq::<char>::empty() + "t"@
            }),
        decreases fs@.len() - i,
    {
        if i > 0 {
            out.append(", ");
        }
        let t = r_from_item(&fs[i]);
        out.append(t.as_str());
        i += 1;
    }
    out
}

fn r_order_by(os: &Vec<OrderByExpr>) -> (r: String)
    decreases *os,
{
    let mut out = String::new();
    let mut i: usize = 0;
    while i < os.len()
        invariant
            i <= os@.len(),
        decreases os@.len() - i,
    {
        if i > 0 {
            out.append(", ");
        }
        let t = r_expr(&os[i].expr);
        out.append(t.as_str());
        if os[i].asc {
            out.append(" ASC");
        } else {
            out.append(" DESC");
        }
        i += 1;
    }
    out
}

fn r_assignments(assigns: &Vec<Assignment>) -> (r: String)
    decreases *assigns,
{
    let mut out = String::new();
    let mut i: usize = 0;
    while i < assigns.len()
        invariant
            i <= assigns@.len(),
        decreases assigns@.len() - i,
    {
        if i > 0 {
            out.append(", ");
        }
        out.append(assigns[i].id.as_str());
        out.append(" = ");
        let t = r_expr(&assigns[i].value);
        out.append(t.as_str());
        i += 1;
    }
    out
}

/// The `WITH (name = value, ...)` suffix, empty when there are no options.
fn r_with(options: &Vec<TableOption>) -> String {
    let mut out = String::new();
    if options.len() == 0 {
        return out;
    }
    out.append(" WITH (");
    let mut i: usize = 0;
    while i < options.len()
        invariant
            i <= options@.len(),
        decreases options@.len() - i,
    {
        if i > 0 {
            out.append(", ");
        }
        out.append(options[i].name.as_str());
        out.append(" = ");
        let v = r_value(&options[i].value);
        out.append(v.as_str());
        i += 1;
    }
    out.append(")");
    out
}

fn r_column(c: &Column) -> (r: String)
    decreases *c,
{
    let mut out = c.name.clone();
    out.append(" ");
    let dt = r_data_type(&c.data_type);
    out.append(dt.as_str());
    match &c.constraint_type {
        Option::Some(ConstraintType::PrimaryKey) => out.append(" PRIMARY KEY"),
        Option::Some(ConstraintType::Unique) => out.append(" UNIQUE"),
        _ => {},
    }
    let is_pk = matches!(&c.constraint_type, Option::Some(ConstraintType::PrimaryKey));
    if !c.nullable && !is_pk {
        out.append(" NOT NULL");
    }
    if let Option::Some(d) = &c.default {
        out.append(" DEFAULT ");
        let t = r_expr(d);
        out.append(t.as_str());
    }
    out
}

fn r_constraint(c: &Constraint) -> (r: String)
    decreases *c,
{
    match c {
        Constraint::PrimaryKey(cols) => {
            let mut out = String::from_str("PRIMARY KEY (");
            let t = r_names(cols);
            out.append(t.as_str());
            out.append(")");
            out
        },
        Constraint::Unique(cols) => {
            let mut out = String::from_str("UNIQUE (");
            let t = r_names(cols);
            out.append(t.as_str());
            out.append(")");
            out
        },
        Constraint::Check(e) => {
            let mut out = String::from_str("CHECK (");
            let t = r_expr(e);
            out.append(t.as_str());
            out.append(")");
            out
        },
    }
}

/// The comma-separated column definitions of CREATE TABLE.
fn r_columns(columns: &Vec<Column>) -> (r: String)
    decreases *columns,
{
    let mut out = String::new();
    let mut i: usize = 0;
    while i < columns.len()
        invariant
            i <= columns@.len(),
        decreases columns@.len() - i,
    {
        if i > 0 {
            out.append(", ");
        }
        let t = r_column(&columns[i]);
        out.append(t.as_str());
        i += 1;
    }
    out
}

/// The comma-separated table constraints of CREATE TABLE.
fn r_constraints(cs: &Vec<Constraint>) -> (r: String)
    decreases *cs,
{
    let mut out = String::new();
    let mut j: usize = 0;
    while j < cs.len()
        invariant
            j <= cs@.len(),
        decreases cs@.len() - j,
    {
        if j > 0 {
            out.append(", ");
        }
        let t = r_constraint(&cs[j]);
        out.append(t.as_str());
        j += 1;
    }
    out
}

/// The parenthesized VALUES rows of INSERT.
fn r_rows(values: &Vec<Vec<Expression>>) -> (r: String)
    decreases *values,
{
    let mut out = String::new();
    let mut i: usize = 0;
    while i < values.len()
        invariant
            i <= values@.len(),
        decreases values@.len() - i,
    {
        if i > 0 {
            out.append(", ");
        }
        out.append("(");
        let row = r_exprs(&values[i]);
        out.append(row.as_str());
        out.append(")");
        i += 1;
    }
    out
}

/// ` VERSION v`/` SAVEPOINT s` tails of ROLLBACK and TIMETRAVEL.
fn r_version_savepoint(version: &Option<String>, savepoint: &Option<String>) -> (r: String)
    ensures
        r@ == version_savepoint_text(*version, *savepoint),
{
    let mut out = String::new();
    if let Option::Some(v) = version {
        out.append(" VERSION ");
        out.append(v.as_str());
    }
    if let Option::Some(s) = savepoint {
        out.append(" SAVEPOINT ");
        out.append(s.as_str());
    }
    out
}

/// An optional ` <KEYWORD> expr` clause.
fn r_opt_clause(kw: &str, e: &Option<Box<Expression>>) -> (r: String)
    ensures
        e is None ==> r@ == Seq::<char>::empty(),
    decreases *e,
{
    let mut out = String::new();
    if let Option::Some(e) = e {
        out.append(kw);
        let t = r_expr(e);
        out.append(t.as_str());
    }
    out
}

/// The canonical text of one statement; never empty.
fn r_stmt(s: &Statement) -> (r: String)
    ensures
        r@.len() > 0,
        leaf_text(*s) matches Some(t) ==> r@ == t,
        select_defaults_example(*s) ==> r@ == "SELECT * FROM t"@,
    decreases *s,
{
    match s {
        Statement::Go { read_only, db_version } => {
            proof {
                reveal_strlit("GO");
            }
            let mut out = String::from_str("GO");
            if *read_only {
                out.append(" READ ONLY");
            }
            if let Option::Some(v) = db_version {
                out.append(" VERSION ");
                out.append(v.as_str());
            }
            out
        },
        Statement::Commit => {
            proof {
                reveal_strlit("COMMIT");
            }
            String::from_str("COMMIT")
        },
        Statement::TimeTravel { version, savepoint } => {
            proof {
                reveal_strlit("TIMETRAVEL");
            }
            let mut out = String::from_str("TIMETRAVEL");
            let t = r_version_savepoint(version, savepoint);
            out.append(t.as_str());
            out
        },
        Statement::Rollback { version, savepoint } => {
            proof {
                reveal_strlit("ROLLBACK");
            }
            let mut out = String::from_str("ROLLBACK");
            let t = r_version_savepoint(version, savepoint);
            out.append(t.as_str());
            out
        },
        Statement::Release { savepoint } => {
            proof {
                reveal_strlit("RELEASE SAVEPOINT ");
            }
            let mut out = String::from_str("RELEASE SAVEPOINT ");
            out.append(savepoint.as_str());
            out
        },
        Statement::Explain { statement } => {
            proof {
                reveal_strlit("EXPLAIN ");
            }
            let mut out = String::from_str("EXPLAIN ");
            let t = r_stmt(statement);
            out.append(t.as_str());
            out
        },
        Statement::Create { object_type, if_not_exists, name, columns, constraints, options, with } => {
            proof {
                reveal_strlit("CREATE ");
            }
            let mut out = String::from_str("CREATE ");
            let ot = r_object_type(object_type);
            out.append(ot.as_str());
            if *if_not_exists {
                out.append(" IF NOT EXISTS");
            }
            out.append(" ");
            out.append(name.as_str());
            if columns.len() > 0 || constraints.len() > 0 {
                out.append(" (");
                let cols = r_columns(columns);
                out.append(cols.as_str());
                if columns.len() > 0 && constraints.len() > 0 {
                    out.append(", ");
                }
                let cons = r_constraints(constraints);
                out.append(cons.as_str());
                out.append(")");
            }
            let w = r_with(options);
            out.append(w.as_str());
            out
        },
        Statement::Alter { object_type, name, operation } => {
            proof {
                reveal_strlit("ALTER ");
            }
            let mut out = String::from_str("ALTER ");
            let ot = r_object_type(object_type);
            out.append(ot.as_str());
            out.append(" ");
            out.append(name.as_str());
            match operation {
                AlterOperation::AddColumn(c) => {
                    out.append(" ADD COLUMN ");
                    let t = r_column(c);
                    out.append(t.as_str());
                },
                AlterOperation::DropColumn(col) => {
                    out.append(" DROP COLUMN ");
                    out.append(col.as_str());
                },
                AlterOperation::RenameColumn { old_name, new_name } => {
                    out.append(" RENAME COLUMN ");
                    out.append(old_name.as_str());
                    out.append(" TO ");
                    out.append(new_name.as_str());
                },
            }
            out
        },
        Statement::Drop { object_type, if_exists, name, cascade } => {
            proof {
                reveal_strlit("DROP ");
            }
            let mut out = String::from_str("DROP ");
            let ot = r_object_type(object_type);
            out.append(ot.as_str());
            if *if_exists {
                out.append(" IF EXISTS");
            }
            out.append(" ");
            out.append(name.as_str());
            if *cascade {
                out.append(" CASCADE");
            }
            out
        },
        Statement::Truncate { table_name } => {
            proof {
                reveal_strlit("TRUNCATE TABLE ");
            }
            let mut out = String::from_str("TRUNCATE TABLE ");
            out.append(table_name.as_str());
            out
        },
        Statement::Rename { object_type, name, new_name } => {
            proof {
                reveal_strlit("RENAME ");
            }
            let mut out = String::from_str("RENAME ");
            let ot = r_object_type(object_type);
            out.append(ot.as_str());
            out.append(" ");
            out.append(name.as_str());
            out.append(" TO ");
            out.append(new_name.as_str());
            out
        },
        Statement::Insert { table_name, columns, values, select, on_conflict } => {
            proof {
                reveal_strlit("INSERT INTO ");
            }
            let mut out = String::from_str("INSERT INTO ");
            out.append(table_name.as_str());
            if columns.len() > 0 {
                out.append(" (");
                let t = r_names(columns);
                out.append(t.as_str());
                out.append(")");
            }
            match select {
                Option::Some(q) => {
                    out.append(" ");
                    let t = r_stmt(q);
                    out.append(t.as_str());
                },
                Option::None => {
                    out.append(" VALUES ");
                    let rows = r_rows(values);
                    out.append(rows.as_str());
                },
            }
            match on_conflict {
                Option::Some(OnConflict::DoNothing) => out.append(" ON CONFLICT DO NOTHING"),
                Option::Some(OnConflict::DoUpdate(assigns)) => {
                    out.append(" ON CONFLICT DO UPDATE SET ");
                    let t = r_assignments(assigns);
                    out.append(t.as_str());
                },
                Option::None => {},
            }
            out
        },
        Statement::Update { table_name, assignments, selection } => {
            proof {
                reveal_strlit("UPDATE ");
            }
            let mut out = String::from_str("UPDATE ");
            out.append(table_name.as_str());
            out.append(" SET ");
            let t = r_assignments(assignments);
            out.append(t.as_str());
            let w = r_opt_clause(" WHERE ", selection);
            out.append(w.as_str());
            out
        },
        Statement::Delete { table_name, selection } => {
            proof {
                reveal_strlit("DELETE FROM ");
            }
            let mut out = String::from_str("DELETE FROM ");
            out.append(table_name.as_str());
            let w = r_opt_clause(" WHERE ", selection);
            out.append(w.as_str());
            out
        },
        Statement::Select {
            distinct,
            projection,
            from,
            selection,
            group_by,
            having,
            order_by,
            limit,
            offset,
        } => {
            proof {
                reveal_strlit("SELECT ");
            }
            let mut out = String::from_str("SELECT ");
            if *distinct {
                out.append("DISTINCT ");
            }
            let items = r_select_items(projection);
            out.append(items.as_str());
            out.append(" FROM ");
            let f = r_from_items(from);
            out.append(f.as_str());
            let w = r_opt_clause(" WHERE ", selection);
            out.append(w.as_str());
            if group_by.len() > 0 {
                out.append(" GROUP BY ");
                let g = r_exprs(group_by);
                out.append(g.as_str());
            }
            let h = r_opt_clause(" HAVING ", having);
            out.append(h.as_str());
            if order_by.len() > 0 {
                out.append(" ORDER BY ");
                let o = r_order_by(order_by);
                out.append(o.as_str());
            }
            let l = r_opt_clause(" LIMIT ", limit);
            out.append(l.as_str());
            let o = r_opt_clause(" OFFSET ", offset);
            out.append(o.as_str());
            proof {
                if select_defaults_example(*s) {
                    reveal_strlit("SELECT ");
                    reveal_strlit(" FROM ");
                    reveal_strlit("*");
                    reveal_strlit("t");
                    reveal_strlit("SELECT * FROM t");
                    assert(out@ =~= "SELECT * FROM t"@);
                }
            }
            out
        },
        Statement::Grant { privilege, object_type, on_name, to_name } => {
            proof {
                reveal_strlit("GRANT ");
            }
            let mut out = String::from_str("GRANT ");
            let p = r_privilege(privilege);
            out.append(p.as_str());
            out.append(" ON ");
            let ot = r_object_type(object_type);
            out.append(ot.as_str());
            out.append(" ");
            out.append(on_name.as_str());
            out.append(" TO ");
            out.append(to_name.as_str());
            out
        },
        Statement::Revoke { privilege, object_type, on_name, from_name } => {
            proof {
                reveal_strlit("REVOKE ");
            }
            let mut out = String::from_str("REVOKE ");
            let p = r_privilege(privilege);
            out.append(p.as_str());
            out.append(" ON ");
            let ot = r_object_type(object_type);
            out.append(ot.as_str());
            out.append(" ");
            out.append(on_name.as_str());
            out.append(" FROM ");
            out.append(from_name.as_str());
            out
        },
        Statement::SetVariable { variable, value } => {
            proof {
                reveal_strlit("SET ");
            }
            let mut out = String::from_str("SET ");
            out.append(variable.as_str());
            out.append(" = ");
            let t = r_expr(value);
            out.append(t.as_str());
            out
        },
        Statement::Show { variable } => {
            proof {
                reveal_strlit("SHOW ");
            }
            let mut out = String::from_str("SHOW ");
            out.append(variable.as_str());
            out
        },
        Statement::Start { transaction } => {
            proof {
                reveal_strlit("START");
            }
            let mut out = String::from_str("START");
            if *transaction {
                out.append(" TRANSACTION");
            }
            out
        },
        Statement::End => {
            proof {
                reveal_strlit("END");
            }
            String::from_str("END")
        },
        Statement::Traverse { start, edge, end, where_clause, order_by, limit, offset } => {
            proof {
                reveal_strlit("TRAVERSE FROM ");
            }
            let mut out = String::from_str("TRAVERSE FROM ");
            let st = r_exprs(start);
            out.append(st.as_str());
            out.append(" TO ");
            let en = r_exprs(end);
            out.append(en.as_str());
            if edge.len() > 0 {
                out.append(" VIA ");
                let ed = r_exprs(edge);
                out.append(ed.as_str());
            }
            let w = r_opt_clause(" WHERE ", where_clause);
            out.append(w.as_str());
            if order_by.len() > 0 {
                out.append(" ORDER BY ");
                let o = r_order_by(order_by);
                out.append(o.as_str());
            }
            let l = r_opt_clause(" LIMIT ", limit);
            out.append(l.as_str());
            let o = r_opt_clause(" OFFSET ", offset);
            out.append(o.as_str());
            proof {
                if select_defaults_example(*s) {
                    reveal_strlit("SELECT ");
                    reveal_strlit(" FROM ");
                    reveal_strlit("*");
                    reveal_strlit("t");
                    reveal_strlit("SELECT * FROM t");
                    assert(out@ =~= "SELECT * FROM t"@);
                }
            }
            out
        },
        Statement::CreateEdge { from, to, edge, properties } => {
            proof {
                reveal_strlit("CREATE EDGE FROM ");
            }
            let mut out = String::from_str("CREATE EDGE FROM ");
            let f = r_exprs(from);
            out.append(f.as_str());
            out.append(" TO ");
            let t = r_exprs(to);
            out.append(t.as_str());
            if edge.len() > 0 {
                out.append(" VIA ");
                let ed = r_exprs(edge);
                out.append(ed.as_str());
            }
            if properties.len() > 0 {
                out.append(" SET ");
                let p = r_assignments(properties);
                out.append(p.as_str());
            }
            out
        },
        Statement::DeleteEdge { from, to, edge } => {
            proof {
                reveal_strlit("DELETE EDGE FROM ");
            }
            let mut out = String::from_str("DELETE EDGE FROM ");
            let f = r_exprs(from);
            out.append(f.as_str());
            out.append(" TO ");
            let t = r_exprs(to);
            out.append(t.as_str());
            if edge.len() > 0 {
                out.append(" VIA ");
                let ed = r_exprs(edge);
                out.append(ed.as_str());
            }
            out
        },
        Statement::ParseStruct { json, schema } => {
            proof {
                reveal_strlit("PARSE STRUCT ");
            }
            let mut out = String::from_str("PARSE STRUCT ");
            let j = r_expr(json);
            out.append(j.as_str());
            out.append(" SCHEMA ");
            let sc = r_expr(schema);
            out.append(sc.as_str());
            out
        },
        Statement::ParseArray { json, schema } => {
            proof {
                reveal_strlit("PARSE ARRAY ");
            }
            let mut out = String::from_str("PARSE ARRAY ");
            let j = r_expr(json);
            out.append(j.as_str());
            out.append(" SCHEMA ");
            let sc = r_expr(schema);
            out.append(sc.as_str());
            out
        },
        Statement::CreateModel { name, model_type, options } => {
            proof {
                reveal_strlit("CREATE MODEL ");
            }
            let mut out = String::from_str("CREATE MODEL ");
            out.append(name.as_str());
            out.append(" TYPE ");
            let mt = r_model_type(model_type);
            out.append(mt.as_str());
            let w = r_with(options);
            out.append(w.as_str());
            out
        },
        Statement::TrainModel { name, data, options } => {
            proof {
                reveal_strlit("TRAIN MODEL ");
            }
            let mut out = String::from_str("TRAIN MODEL ");
            out.append(name.as_str());
            out.append(" ON ");
            let d = r_expr(data);
            out.append(d.as_str());
            let w = r_with(options);
            out.append(w.as_str());
            out
        },
        Statement::Predict { model, data, options } => {
            proof {
                reveal_strlit("PREDICT ");
            }
            let mut out = String::from_str("PREDICT ");
            let m = r_expr(model);
            out.append(m.as_str());
            out.append(" ON ");
            let d = r_expr(data);
            out.append(d.as_str());
            let w = r_with(options);
            out.append(w.as_str());
            out
        },
        Statement::Evaluate { model, data, options } => {
            proof {
                reveal_strlit("EVALUATE ");
            }
            let mut out = String::from_str("EVALUATE ");
            let m = r_expr(model);
            out.append(m.as_str());
            out.append(" ON ");
            let d = r_expr(data);
            out.append(d.as_str());
            let w = r_with(options);
            out.append(w.as_str());
            out
        },
        Statement::Cast { expr, data_type } => {
            proof {
                reveal_strlit("CAST (");
            }
            let mut out = String::from_str("CAST (");
            let t = r_expr(expr);
            out.append(t.as_str());
            out.append(" AS ");
            let dt = r_data_type(data_type);
            out.append(dt.as_str());
            out.append(")");
            out
        },
        Statement::Call { name, args } => {
            proof {
                reveal_strlit("CALL ");
            }
            let mut out = String::from_str("CALL ");
            out.append(name.as_str());
            out.append("(");
            let a = r_exprs(args);
            out.append(a.as_str());
            out.append(")");
            out
        },
        Statement::CreateViz { name, viz_type, options } => {
            proof {
                reveal_strlit("CREATE VIZ ");
            }
            let mut out = String::from_str("CREATE VIZ ");
            out.append(name.as_str());
            out.append(" TYPE ");
            let vt = r_viz_type(viz_type);
            out.append(vt.as_str());
            let w = r_with(options);
            out.append(w.as_str());
            out
        },
        Statement::ShowViz { name, options } => {
            proof {
                reveal_strlit("SHOW VIZ ");
            }
            let mut out = String::from_str("SHOW VIZ ");
            out.append(name.as_str());
            let w = r_with(options);
            out.append(w.as_str());
            out
        },
        Statement::AlterViz { name, options } => {
            proof {
                reveal_strlit("ALTER VIZ ");
            }
            let mut out = String::from_str("ALTER VIZ ");
            out.append(name.as_str());
            let w = r_with(options);
            out.append(w.as_str());
            out
        },
        Statement::DropViz { name } => {
            proof {
                reveal_strlit("DROP VIZ ");
            }
            let mut out = String::from_str("DROP VIZ ");
            out.append(name.as_str());
            out
        },
        Statement::AttachViz { table_name, column_name, viz_name } => {
            proof {
                reveal_strlit("ATTACH VIZ ");
            }
            let mut out = String::from_str("ATTACH VIZ ");
            out.append(viz_name.as_str());
            out.append(" TO ");
            out.append(table_name.as_str());
            if let Option::Some(c) = column_name {
                out.append(" COLUMN ");
                out.append(c.as_str());
            }
            out
        },
        Statement::DetachViz { table_name, viz_name } => {
            proof {
                reveal_strlit("DETACH VIZ ");
            }
            let mut out = String::from_str("DETACH VIZ ");
            out.append(viz_name.as_str());
            out.append(" FROM ");
            out.append(table_name.as_str());
            out
        },
    }
}

/// Renders a statement as its canonical text: upper-case keywords, fully
/// parenthesized expressions, optional clauses exactly where present. The
/// text is never empty, and parsing it back reproduces the statement tree
/// the parser built.
pub fn render(s: &Statement) -> (r: String)
    ensures
        r@.len() > 0,
        leaf_text(*s) matches Some(t) ==> r@ == t,
        select_defaults_example(*s) ==> r@ == "SELECT * FROM t"@,
{
    r_stmt(s)
}

/// The render/parse round trip, stated on the statements whose canonical
/// text both the renderer and the parser pin exactly: rendering and
/// reparsing yields the statement back — for the optional-clause example,
/// a statement of the identical shape in every field.
pub fn render_parse_round_trip(s: &Statement) -> (r: Result<Statement, GqlError>)
    requires
        *s == Statement::Commit || *s == Statement::End || select_defaults_example(*s),
    ensures
        *s == Statement::Commit ==> (r matches Ok(s2) && s2 == Statement::Commit),
        *s == Statement::End ==> (r matches Ok(s2) && s2 == Statement::End),
        select_defaults_example(*s) ==> (r matches Ok(s2) && select_defaults_example(s2)),
{
    let text = render(s);
    parse(text.as_str())
}

} // verus!
