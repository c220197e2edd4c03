//! How queries and statements are rendered as SQL text: the specification
//! (`*_sql`) and the code that builds the text (`push_*`, `build_*`).
use vstd::prelude::*;

use crate::condition::{ConditionAtom, Value};
use crate::execute::{DeleteData, InsertData, UpdateData};
use crate::join::JoinClause;
use crate::query::{QueryInternData, SubqueryBody};
use crate::text::{decimal, int_decimal, join, lemma_join_push, push_char, push_decimal, push_escaped, push_int, text_literal};
use crate::{ColumnExpr, Direction};

verus! {

// ── Specification ─────────────────────────────────────────────────────────────

pub open spec fn direction_sql(d: Direction) -> Seq<char> {
    match d {
        Direction::Asc => "ASC"@,
        Direction::Desc => "DESC"@,
    }
}

/// The table's name, or `dflt` where there is none.
pub open spec fn table_or(t: Option<&'static str>, dflt: Seq<char>) -> Seq<char> {
    match t {
        Some(s) => s@,
        None => dflt,
    }
}

pub open spec fn col_expr_sql(e: ColumnExpr) -> Seq<char> {
    match e {
        ColumnExpr::All => "*"@,
        ColumnExpr::Column { table, name } => table@ + "."@ + name@,
        ColumnExpr::Count => "COUNT(*)"@,
        ColumnExpr::Max { table, name } => "MAX("@ + table@ + "."@ + name@ + ")"@,
        ColumnExpr::Min { table, name } => "MIN("@ + table@ + "."@ + name@ + ")"@,
        ColumnExpr::Sum { table, name } => "SUM("@ + table@ + "."@ + name@ + ")"@,
    }
}

/// Each select entry rendered, in order.
pub open spec fn col_expr_parts(cols: Seq<ColumnExpr>) -> Seq<Seq<char>>
    decreases cols.len(),
{
    if cols.len() == 0 {
        seq![]
    } else {
        col_expr_parts(cols.drop_last()).push(col_expr_sql(cols.last()))
    }
}

/// The select list: `*` where it is empty.
pub open spec fn columns_sql(cols: Seq<ColumnExpr>) -> Seq<char> {
    if cols.len() == 0 {
        "*"@
    } else {
        join(col_expr_parts(cols), ", "@)
    }
}

/// Each name as text, in order.
pub open spec fn name_parts(names: Seq<&'static str>) -> Seq<Seq<char>>
    decreases names.len(),
{
    if names.len() == 0 {
        seq![]
    } else {
        name_parts(names.drop_last()).push(names.last()@)
    }
}

/// Names separated by commas.
pub open spec fn names_sql(names: Seq<&'static str>) -> Seq<char> {
    join(name_parts(names), ", "@)
}

/// A value as an SQL literal.
pub open spec fn value_sql(v: Value) -> Seq<char> {
    match v {
        Value::Int(i) => int_decimal(i as int),
        Value::Float(s) => s@,
        Value::Text(s) => text_literal(s@),
        Value::Bool(b) => if b {
            "TRUE"@
        } else {
            "FALSE"@
        },
    }
}

/// Each value rendered, in order.
pub open spec fn value_parts(vs: Seq<Value>) -> Seq<Seq<char>>
    decreases vs.len(),
{
    if vs.len() == 0 {
        seq![]
    } else {
        value_parts(vs.drop_last()).push(value_sql(vs.last()))
    }
}

/// Values separated by commas.
pub open spec fn values_sql(vs: Seq<Value>) -> Seq<char> {
    join(value_parts(vs), ", "@)
}

/// One condition atom.
pub open spec fn atom_sql(a: ConditionAtom) -> Seq<char>
    decreases a, 0nat,
{
    match a {
        ConditionAtom::Eq(c, v) => c@ + " = "@ + value_sql(v),
        ConditionAtom::NotEq(c, v) => c@ + " <> "@ + value_sql(v),
        ConditionAtom::Lt(c, v) => c@ + " < "@ + value_sql(v),
        ConditionAtom::LtEq(c, v) => c@ + " <= "@ + value_sql(v),
        ConditionAtom::Gt(c, v) => c@ + " > "@ + value_sql(v),
        ConditionAtom::GtEq(c, v) => c@ + " >= "@ + value_sql(v),
        ConditionAtom::Like(c, v) => c@ + " LIKE "@ + value_sql(v),
        ConditionAtom::IsNull(c) => c@ + " IS NULL"@,
        ConditionAtom::IsNotNull(c) => c@ + " IS NOT NULL"@,
        ConditionAtom::Between(c, lo, hi) => c@ + " BETWEEN "@ + value_sql(lo) + " AND "@
            + value_sql(hi),
        ConditionAtom::InValues(c, vs) => c@ + " IN ("@ + values_sql(vs@) + ")"@,
        ConditionAtom::InSubquery(c, d) => c@ + " IN ("@ + select_sql(*d) + ")"@,
        ConditionAtom::NotInSubquery(c, d) => c@ + " NOT IN ("@ + select_sql(*d) + ")"@,
        ConditionAtom::Exists(b) => "EXISTS ("@ + subquery_sql(*b) + ")"@,
        ConditionAtom::NotExists(b) => "NOT EXISTS ("@ + subquery_sql(*b) + ")"@,
        ConditionAtom::And => "AND"@,
        ConditionAtom::Or => "OR"@,
    }
}

/// Each atom rendered, in order.
pub open spec fn atom_parts(s: Seq<ConditionAtom>) -> Seq<Seq<char>>
    decreases s, 0nat,
{
    if s.len() == 0 {
        seq![]
    } else {
        atom_parts(s.drop_last()).push(atom_sql(s.last()))
    }
}

/// Each condition group rendered in parentheses, in order.
pub open spec fn group_parts(gs: Seq<Vec<ConditionAtom>>) -> Seq<Seq<char>>
    decreases gs, 0nat,
{
    if gs.len() == 0 {
        seq![]
    } else {
        group_parts(gs.drop_last()).push("("@ + join(atom_parts(gs.last()@), " "@) + ")"@)
    }
}

/// Condition groups, each in parentheses, joined by `AND`.
pub open spec fn conditions_sql(gs: Seq<Vec<ConditionAtom>>) -> Seq<char>
    decreases gs, 1nat,
{
    join(group_parts(gs), " AND "@)
}

/// ` WHERE ...`, or nothing where there is no condition.
pub open spec fn where_sql(gs: Seq<Vec<ConditionAtom>>) -> Seq<char>
    decreases gs, 2nat,
{
    if gs.len() == 0 {
        seq![]
    } else {
        " WHERE "@ + conditions_sql(gs)
    }
}

/// ` HAVING ...`, or nothing where there is no condition.
pub open spec fn having_sql(gs: Seq<Vec<ConditionAtom>>) -> Seq<char>
    decreases gs, 2nat,
{
    if gs.len() == 0 {
        seq![]
    } else {
        " HAVING "@ + conditions_sql(gs)
    }
}

/// The text of a subquery.
pub open spec fn subquery_sql(b: SubqueryBody) -> Seq<char>
    decreases b, 0nat,
{
    match b {
        SubqueryBody::Query(d) => select_sql(*d),
        SubqueryBody::Sql(s) => s@,
    }
}

/// What follows `FROM`: the table, or the aliased subquery.
pub open spec fn from_sql(d: QueryInternData) -> Seq<char>
    decreases d, 0nat,
{
    match d.subquery_source {
        Some(b) => "("@ + subquery_sql(b) + ") AS "@ + table_or(d.table, "sub"@),
        None => table_or(d.table, "unknown"@),
    }
}

/// Each join clause, with a space before it.
pub open spec fn joins_sql(js: Seq<JoinClause>) -> Seq<char>
    decreases js.len(),
{
    if js.len() == 0 {
        seq![]
    } else {
        joins_sql(js.drop_last()) + " "@ + js.last().sql()
    }
}

pub open spec fn group_by_sql(cols: Seq<&'static str>) -> Seq<char> {
    if cols.len() == 0 {
        seq![]
    } else {
        " GROUP BY "@ + names_sql(cols)
    }
}

pub open spec fn order_sql(o: Option<(&'static str, Direction)>) -> Seq<char> {
    match o {
        Some((c, dir)) => " ORDER BY "@ + c@ + " "@ + direction_sql(dir),
        None => seq![],
    }
}

pub open spec fn limit_sql(l: Option<usize>) -> Seq<char> {
    match l {
        Some(n) => " LIMIT "@ + decimal(n as nat),
        None => seq![],
    }
}

pub open spec fn offset_sql(o: Option<usize>) -> Seq<char> {
    match o {
        Some(n) => " OFFSET "@ + decimal(n as nat),
        None => seq![],
    }
}

/// The SELECT statement of a query. Its clauses come in a fixed order,
/// whatever order the builder was called in.
pub open spec fn select_sql(d: QueryInternData) -> Seq<char>
    decreases d, 3nat,
{
    "SELECT "@ + columns_sql(d.columns@) + " FROM "@ + from_sql(d) + joins_sql(d.joins@)
        + where_sql(d.conditions@) + group_by_sql(d.group_by@) + having_sql(d.having@) + order_sql(
        d.order_by,
    ) + limit_sql(d.limit) + offset_sql(d.offset)
}

/// A condition's atoms, separated by single spaces.
pub open spec fn fragment_sql(s: Seq<ConditionAtom>) -> Seq<char> {
    join(atom_parts(s), " "@)
}

pub open spec fn insert_sql(d: InsertData) -> Seq<char> {
    "INSERT INTO "@ + d.table@ + " ("@ + names_sql(d.columns@) + ") VALUES ("@ + values_sql(
        d.values@,
    ) + ")"@
}

/// `col = value`, or `col = NULL` where there is no value.
pub open spec fn assignment_sql(a: (&'static str, Option<Value>)) -> Seq<char> {
    a.0@ + " = "@ + match a.1 {
        Some(v) => value_sql(v),
        None => "NULL"@,
    }
}

/// Each assignment rendered, in order.
pub open spec fn assignment_parts(s: Seq<(&'static str, Option<Value>)>) -> Seq<Seq<char>>
    decreases s.len(),
{
    if s.len() == 0 {
        seq![]
    } else {
        assignment_parts(s.drop_last()).push(assignment_sql(s.last()))
    }
}

pub open spec fn assignments_sql(s: Seq<(&'static str, Option<Value>)>) -> Seq<char> {
    join(assignment_parts(s), ", "@)
}

pub open spec fn update_sql(d: UpdateData) -> Seq<char> {
    "UPDATE "@ + d.table@ + " SET "@ + assignments_sql(d.assignments@) + where_sql(d.conditions@)
}

pub open spec fn delete_sql(d: DeleteData) -> Seq<char> {
    "DELETE FROM "@ + d.table@ + where_sql(d.conditions@)
}

// ── Building the text ─────────────────────────────────────────────────────────

/// Appends a value as an SQL literal.
pub fn push_value(out: &mut String, v: &Value)
    ensures
        final(out)@ == old(out)@ + value_sql(*v),
{
    match v {
        Value::Int(i) => push_int(out, *i),
        Value::Float(s) => out.append(s.as_str()),
        Value::Text(s) => {
            push_char(out, '\'');
            push_escaped(out, s.as_str());
            push_char(out, '\'');
        },
        Value::Bool(b) => {
            if *b {
                out.append("TRUE");
            } else {
                out.append("FALSE");
            }
        },
    }
}

/// Appends values separated by commas.
pub fn push_values(out: &mut String, vs: &Vec<Value>)
    ensures
        final(out)@ == old(out)@ + values_sql(vs@),
{
    let ghost start = out@;
    let mut i: usize = 0;
    while i < vs.len()
        invariant
            i <= vs@.len(),
            out@ == start + values_sql(vs@.take(i as int)),
        decreases vs@.len() - i,
    {
        proof {
            assert(vs@.take(i + 1).drop_last() =~= vs@.take(i as int));
            lemma_join_push(value_parts(vs@.take(i as int)), ", "@, value_sql(vs@[i as int]));
        }
        if i > 0 {
            out.append(", ");
        }
        push_value(out, &vs[i]);
        i = i + 1;
    }
    assert(vs@.take(vs@.len() as int) =~= vs@);
}

/// Appends one select entry.
pub fn push_col_expr(out: &mut String, e: &ColumnExpr)
    ensures
        final(out)@ == old(out)@ + col_expr_sql(*e),
{
    match e {
        ColumnExpr::All => out.append("*"),
        ColumnExpr::Column { table, name } => {
            out.append(table);
            out.append(".");
            out.append(name);
        },
        ColumnExpr::Count => out.append("COUNT(*)"),
        ColumnExpr::Max { table, name } => {
            out.append("MAX(");
            out.append(table);
            out.append(".");
            out.append(name);
            out.append(")");
        },
        ColumnExpr::Min { table, name } => {
            out.append("MIN(");
            out.append(table);
            out.append(".");
            out.append(name);
            out.append(")");
        },
        ColumnExpr::Sum { table, name } => {
            out.append("SUM(");
            out.append(table);
            out.append(".");
            out.append(name);
            out.append(")");
        },
    }
}

/// One select entry as SQL.
pub fn col_expr_to_sql(e: &ColumnExpr) -> (s: String)
    ensures
        s@ == col_expr_sql(*e),
{
    let mut s = String::new();
    push_col_expr(&mut s, e);
    s
}

/// Appends the select list.
pub fn push_columns(out: &mut String, cols: &Vec<ColumnExpr>)
    ensures
        final(out)@ == old(out)@ + columns_sql(cols@),
{
    if cols.len() == 0 {
        out.append("*");
        return ;
    }
    let ghost start = out@;
    let mut i: usize = 0;
    while i < cols.len()
        invariant
            i <= cols@.len(),
            cols@.len() > 0,
            out@ == start + join(col_expr_parts(cols@.take(i as int)), ", "@),
        decreases cols@.len() - i,
    {
        proof {
            assert(cols@.take(i + 1).drop_last() =~= cols@.take(i as int));
            lemma_join_push(col_expr_parts(cols@.take(i as int)), ", "@, col_expr_sql(cols@[i as int]));
        }
        if i > 0 {
            out.append(", ");
        }
        push_col_expr(out, &cols[i]);
        i = i + 1;
    }
    assert(cols@.take(cols@.len() as int) =~= cols@);
}

/// Appends names separated by commas.
pub fn push_names(out: &mut String, names: &Vec<&'static str>)
    ensures
        final(out)@ == old(out)@ + names_sql(names@),
{
    let ghost start = out@;
    let mut i: usize = 0;
    while i < names.len()
        invariant
            i <= names@.len(),
            out@ == start + names_sql(names@.take(i as int)),
        decreases names@.len() - i,
    {
        proof {
            assert(names@.take(i + 1).drop_last() =~= names@.take(i as int));
            lemma_join_push(name_parts(names@.take(i as int)), ", "@, names@[i as int]@);
        }
        if i > 0 {
            out.append(", ");
        }
        out.append(names[i]);
        i = i + 1;
    }
    assert(names@.take(names@.len() as int) =~= names@);
}

/// Appends `col <op> value`.
fn push_binary(out: &mut String, col: &str, op: &str, v: &Value)
    ensures
        final(out)@ == old(out)@ + col@ + op@ + value_sql(*v),
{
    out.append(col);
    out.append(op);
    push_value(out, v);
}

/// Appends an atom that embeds no subquery.
pub fn push_plain_atom(out: &mut String, a: &ConditionAtom)
    requires
        !a.has_subquery(),
    ensures
        final(out)@ == old(out)@ + atom_sql(*a),
{
    match a {
        ConditionAtom::Eq(c, v) => push_binary(out, c, " = ", v),
        ConditionAtom::NotEq(c, v) => push_binary(out, c, " <> ", v),
        ConditionAtom::Lt(c, v) => push_binary(out, c, " < ", v),
        ConditionAtom::LtEq(c, v) => push_binary(out, c, " <= ", v),
        ConditionAtom::Gt(c, v) => push_binary(out, c, " > ", v),
        ConditionAtom::GtEq(c, v) => push_binary(out, c, " >= ", v),
        ConditionAtom::Like(c, v) => push_binary(out, c, " LIKE ", v),
        ConditionAtom::IsNull(c) => {
            out.append(c);
            out.append(" IS NULL");
        },
        ConditionAtom::IsNotNull(c) => {
            out.append(c);
            out.append(" IS NOT NULL");
        },
        ConditionAtom::Between(c, lo, hi) => {
            push_binary(out, c, " BETWEEN ", lo);
            out.append(" AND ");
            push_value(out, hi);
        },
        ConditionAtom::InValues(c, vs) => {
            out.append(c);
            out.append(" IN (");
            push_values(out, vs);
            out.append(")");
        },
        ConditionAtom::And => out.append("AND"),
        ConditionAtom::Or => out.append("OR"),
        _ => {},
    }
}

/// Appends any atom, subqueries rendered in full.
pub fn push_atom(out: &mut String, a: &ConditionAtom)
    ensures
        final(out)@ == old(out)@ + atom_sql(*a),
    decreases a, 0nat,
{
    match a {
        ConditionAtom::InSubquery(c, d) => {
            out.append(c);
            out.append(" IN (");
            push_select(out, d);
            out.append(")");
        },
        ConditionAtom::NotInSubquery(c, d) => {
            out.append(c);
            out.append(" NOT IN (");
            push_select(out, d);
            out.append(")");
        },
        ConditionAtom::Exists(b) => {
            out.append("EXISTS (");
            push_subquery(out, b);
            out.append(")");
        },
        ConditionAtom::NotExists(b) => {
            out.append("NOT EXISTS (");
            push_subquery(out, b);
            out.append(")");
        },
        _ => push_plain_atom(out, a),
    }
}

/// One atom as SQL.
pub fn atom_to_sql(a: &ConditionAtom) -> (s: String)
    ensures
        s@ == atom_sql(*a),
{
    let mut s = String::new();
    push_atom(&mut s, a);
    s
}

/// Appends a condition's atoms separated by single spaces.
pub fn push_fragment(out: &mut String, atoms: &Vec<ConditionAtom>)
    ensures
        final(out)@ == old(out)@ + join(atom_parts(atoms@), " "@),
    decreases atoms@, 0nat,
{
    let ghost start = out@;
    let mut i: usize = 0;
    while i < atoms.len()
        invariant
            i <= atoms@.len(),
            out@ == start + join(atom_parts(atoms@.take(i as int)), " "@),
        decreases atoms@.len() - i,
    {
        proof {
            assert(atoms@.take(i + 1).drop_last() =~= atoms@.take(i as int));
            lemma_join_push(atom_parts(atoms@.take(i as int)), " "@, atom_sql(atoms@[i as int]));
        }
        if i > 0 {
            out.append(" ");
        }
        push_atom(out, &atoms[i]);
        i = i + 1;
    }
    assert(atoms@.take(atoms@.len() as int) =~= atoms@);
}

/// A condition's atoms separated by single spaces.
pub fn build_fragment(atoms: &Vec<ConditionAtom>) -> (s: String)
    ensures
        s@ == fragment_sql(atoms@),
{
    let mut s = String::new();
    push_fragment(&mut s, atoms);
    s
}

/// Appends condition groups, each in parentheses, joined by `AND`.
pub fn push_conditions(out: &mut String, gs: &Vec<Vec<ConditionAtom>>)
    ensures
        final(out)@ == old(out)@ + conditions_sql(gs@),
    decreases gs@, 1nat,
{
    let ghost start = out@;
    let mut i: usize = 0;
    while i < gs.len()
        invariant
            i <= gs@.len(),
            out@ == start + join(group_parts(gs@.take(i as int)), " AND "@),
        decreases gs@.len() - i,
    {
        proof {
            assert(gs@.take(i + 1).drop_last() =~= gs@.take(i as int));
            lemma_join_push(
                group_parts(gs@.take(i as int)),
                " AND "@,
                "("@ + join(atom_parts(gs@[i as int]@), " "@) + ")"@,
            );
        }
        if i > 0 {
            out.append(" AND ");
        }
        out.append("(");
        push_fragment(out, &gs[i]);
        out.append(")");
        i = i + 1;
    }
    assert(gs@.take(gs@.len() as int) =~= gs@);
}

/// Condition groups, each in parentheses, joined by `AND`.
pub fn build_conditions(gs: &Vec<Vec<ConditionAtom>>) -> (s: String)
    ensures
        s@ == conditions_sql(gs@),
{
    let mut s = String::new();
    push_conditions(&mut s, gs);
    s
}

/// Appends the text of a subquery.
pub fn push_subquery(out: &mut String, b: &SubqueryBody)
    ensures
        final(out)@ == old(out)@ + subquery_sql(*b),
    decreases b, 0nat,
{
    match b {
        SubqueryBody::Query(d) => push_select(out, d),
        SubqueryBody::Sql(s) => out.append(s.as_str()),
    }
}

/// Appends each join clause with a space before it.
pub fn push_joins(out: &mut String, js: &Vec<JoinClause>)
    ensures
        final(out)@ == old(out)@ + joins_sql(js@),
{
    let ghost start = out@;
    let mut i: usize = 0;
    while i < js.len()
        invariant
            i <= js@.len(),
            out@ == start + joins_sql(js@.take(i as int)),
        decreases js@.len() - i,
    {
        assert(js@.take(i + 1).drop_last() =~= js@.take(i as int));
        out.append(" ");
        let s = js[i].to_sql();
        out.append(s.as_str());
        i = i + 1;
    }
    assert(js@.take(js@.len() as int) =~= js@);
}

/// Appends what follows `FROM`.
fn push_from(out: &mut String, d: &QueryInternData)
    ensures
        final(out)@ == old(out)@ + from_sql(*d),
    decreases d, 0nat,
{
    match &d.subquery_source {
        Some(b) => {
            out.append("(");
            push_subquery(out, b);
            out.append(") AS ");
            match d.table {
                Some(t) => out.append(t),
                None => out.append("sub"),
            }
        },
        None => {
            match d.table {
                Some(t) => out.append(t),
                None => out.append("unknown"),
            }
        },
    }
}

/// Appends ` WHERE ...` where there are conditions.
fn push_where(out: &mut String, gs: &Vec<Vec<ConditionAtom>>)
    ensures
        final(out)@ == old(out)@ + where_sql(gs@),
    decreases gs@, 2nat,
{
    if gs.len() > 0 {
        out.append(" WHERE ");
        push_conditions(out, gs);
    }
}

/// Appends ` HAVING ...` where there are conditions.
fn push_having(out: &mut String, gs: &Vec<Vec<ConditionAtom>>)
    ensures
        final(out)@ == old(out)@ + having_sql(gs@),
    decreases gs@, 2nat,
{
    if gs.len() > 0 {
        out.append(" HAVING ");
        push_conditions(out, gs);
    }
}

/// Appends ` GROUP BY ...` where there are grouping columns.
fn push_group_by(out: &mut String, d: &QueryInternData)
    ensures
        final(out)@ == old(out)@ + group_by_sql(d.group_by@),
{
    if d.group_by.len() > 0 {
        out.append(" GROUP BY ");
        push_names(out, &d.group_by);
    }
}

fn push_order(out: &mut String, o: Option<(&'static str, Direction)>)
    ensures
        final(out)@ == old(out)@ + order_sql(o),
{
    match o {
        Some((col, dir)) => {
            out.append(" ORDER BY ");
            out.append(col);
            out.append(" ");
            out.append(dir.sql());
        },
        None => {},
    }
}

fn push_limit(out: &mut String, l: Option<usize>)
    ensures
        final(out)@ == old(out)@ + limit_sql(l),
{
    match l {
        Some(n) => {
            out.append(" LIMIT ");
            push_decimal(out, n as u64);
        },
        None => {},
    }
}

fn push_offset(out: &mut String, o: Option<usize>)
    ensures
        final(out)@ == old(out)@ + offset_sql(o),
{
    match o {
        Some(n) => {
            out.append(" OFFSET ");
            push_decimal(out, n as u64);
        },
        None => {},
    }
}

/// Appends the SELECT statement of a query.
pub fn push_select(out: &mut String, d: &QueryInternData)
    ensures
        final(out)@ == old(out)@ + select_sql(*d),
    decreases d, 3nat,
{
    let ghost start = out@;
    out.append("SELECT ");
    push_columns(out, &d.columns);
    out.append(" FROM ");
    let ghost p1 = "SELECT "@ + columns_sql(d.columns@) + " FROM "@;
    assert(out@ =~= start + p1);
    push_from(out, d);
    let ghost p2 = p1 + from_sql(*d);
    assert(out@ =~= start + p2);
    push_joins(out, &d.joins);
    let ghost p3 = p2 + joins_sql(d.joins@);
    assert(out@ =~= start + p3);
    push_where(out, &d.conditions);
    let ghost p4 = p3 + where_sql(d.conditions@);
    assert(out@ =~= start + p4);
    push_group_by(out, d);
    let ghost p5 = p4 + group_by_sql(d.group_by@);
    assert(out@ =~= start + p5);
    push_having(out, &d.having);
    let ghost p6 = p5 + having_sql(d.having@);
    assert(out@ =~= start + p6);
    push_order(out, d.order_by);
    let ghost p7 = p6 + order_sql(d.order_by);
    assert(out@ =~= start + p7);
    push_limit(out, d.limit);
    let ghost p8 = p7 + limit_sql(d.limit);
    assert(out@ =~= start + p8);
    push_offset(out, d.offset);
    let ghost p9 = p8 + offset_sql(d.offset);
    assert(out@ =~= start + p9);
    assert(p9 == select_sql(*d));
}

/// The SELECT statement of a query.
pub fn build_select(d: &QueryInternData) -> (s: String)
    ensures
        s@ == select_sql(*d),
{
    let mut s = String::new();
    push_select(&mut s, d);
    s
}

/// The INSERT statement.
pub fn build_insert(d: &InsertData) -> (s: String)
    ensures
        s@ == insert_sql(*d),
{
    let mut s = String::from_str("INSERT INTO ");
    s.append(d.table);
    s.append(" (");
    push_names(&mut s, &d.columns);
    s.append(") VALUES (");
    push_values(&mut s, &d.values);
    s.append(")");
    s
}

/// Appends one assignment of an UPDATE.
fn push_assignment(out: &mut String, a: &(&'static str, Option<Value>))
    ensures
        final(out)@ == old(out)@ + assignment_sql(*a),
{
    out.append(a.0);
    out.append(" = ");
    match &a.1 {
        Some(v) => push_value(out, v),
        None => out.append("NULL"),
    }
}

/// The UPDATE statement.
pub fn build_update(d: &UpdateData) -> (s: String)
    ensures
        s@ == update_sql(*d),
{
    let mut s = String::from_str("UPDATE ");
    s.append(d.table);
    s.append(" SET ");
    let ghost start = s@;
    let mut i: usize = 0;
    while i < d.assignments.len()
        invariant
            i <= d.assignments@.len(),
            s@ == start + assignments_sql(d.assignments@.take(i as int)),
        decreases d.assignments@.len() - i,
    {
        proof {
            assert(d.assignments@.take(i + 1).drop_last() =~= d.assignments@.take(i as int));
            lemma_join_push(
                assignment_parts(d.assignments@.take(i as int)),
                ", "@,
                assignment_sql(d.assignments@[i as int]),
            );
        }
        if i > 0 {
            s.append(", ");
        }
        push_assignment(&mut s, &d.assignments[i]);
        i = i + 1;
    }
    assert(d.assignments@.take(d.assignments@.len() as int) =~= d.assignments@);
    if d.conditions.len() > 0 {
        s.append(" WHERE ");
        push_conditions(&mut s, &d.conditions);
    }
    s
}

/// The DELETE statement.
pub fn build_delete(d: &DeleteData) -> (s: String)
    ensures
        s@ == delete_sql(*d),
{
    let mut s = String::from_str("DELETE FROM ");
    s.append(d.table);
    if d.conditions.len() > 0 {
        s.append(" WHERE ");
        push_conditions(&mut s, &d.conditions);
    }
    s
}

// ── Copies that render alike ─────────────────────────────────────────────────

/// Whether atom `c` copies atom `a`: the same predicate on the same column
/// with equal values, and copies of any list or subquery it holds.
pub open spec fn atom_copies(c: ConditionAtom, a: ConditionAtom) -> bool
    decreases a, 0nat,
{
    match (c, a) {
        (ConditionAtom::InValues(c1, v1), ConditionAtom::InValues(c2, v2)) => c1 == c2 && v1@ == v2@,
        (ConditionAtom::InSubquery(c1, d1), ConditionAtom::InSubquery(c2, d2)) => c1 == c2
            && copies(*d1, *d2),
        (ConditionAtom::NotInSubquery(c1, d1), ConditionAtom::NotInSubquery(c2, d2)) => c1 == c2
            && copies(*d1, *d2),
        (ConditionAtom::Exists(b1), ConditionAtom::Exists(b2)) => body_copies(*b1, *b2),
        (ConditionAtom::NotExists(b1), ConditionAtom::NotExists(b2)) => body_copies(*b1, *b2),
        _ => c == a,
    }
}

/// Whether the atoms `cs` copy the atoms `ds`, one by one.
pub open spec fn atoms_copy(cs: Seq<ConditionAtom>, ds: Seq<ConditionAtom>) -> bool
    decreases ds, 0nat,
{
    &&& cs.len() == ds.len()
    &&& ds.len() > 0 ==> atoms_copy(cs.drop_last(), ds.drop_last()) && atom_copies(
        cs.last(),
        ds.last(),
    )
}

/// Whether the conditions `cs` copy the conditions `ds`, one by one.
pub open spec fn groups_copy(cs: Seq<Vec<ConditionAtom>>, ds: Seq<Vec<ConditionAtom>>) -> bool
    decreases ds, 0nat,
{
    &&& cs.len() == ds.len()
    &&& ds.len() > 0 ==> groups_copy(cs.drop_last(), ds.drop_last()) && atoms_copy(
        cs.last()@,
        ds.last()@,
    )
}

/// Whether subquery `c` copies subquery `b`: a copy of the same query, or the
/// same text.
pub open spec fn body_copies(c: SubqueryBody, b: SubqueryBody) -> bool
    decreases b, 0nat,
{
    match (c, b) {
        (SubqueryBody::Query(x), SubqueryBody::Query(y)) => copies(*x, *y),
        (SubqueryBody::Sql(s), SubqueryBody::Sql(t)) => s == t,
        _ => false,
    }
}

/// Whether `c` copies `d`: the same table, select list, joins, grouping,
/// order, limit and offset; a copy of its subquery source, where it has one;
/// and copies of its WHERE and HAVING conditions, atom by atom.
pub open spec fn copies(c: QueryInternData, d: QueryInternData) -> bool
    decreases d, 1nat,
{
    &&& c.table == d.table
    &&& match (c.subquery_source, d.subquery_source) {
        (Some(a), Some(b)) => body_copies(a, b),
        (None, None) => true,
        _ => false,
    }
    &&& c.columns@ == d.columns@
    &&& c.joins@ == d.joins@
    &&& groups_copy(c.conditions@, d.conditions@)
    &&& c.group_by@ == d.group_by@
    &&& groups_copy(c.having@, d.having@)
    &&& c.order_by == d.order_by
    &&& c.limit == d.limit
    &&& c.offset == d.offset
}

fn copy_value(v: &Value) -> (c: Value)
    ensures
        c == *v,
        value_sql(c) == value_sql(*v),
{
    match v {
        Value::Int(i) => Value::Int(*i),
        Value::Float(s) => Value::Float(s.clone()),
        Value::Text(s) => Value::Text(s.clone()),
        Value::Bool(b) => Value::Bool(*b),
    }
}

fn copy_values(vs: &Vec<Value>) -> (c: Vec<Value>)
    ensures
        c@ == vs@,
        values_sql(c@) == values_sql(vs@),
{
    let mut c: Vec<Value> = Vec::new();
    let mut i: usize = 0;
    while i < vs.len()
        invariant
            i <= vs@.len(),
            c@ == vs@.take(i as int),
            value_parts(c@) == value_parts(vs@.take(i as int)),
        decreases vs@.len() - i,
    {
        let v = copy_value(&vs[i]);
        let ghost before = c@;
        c.push(v);
        assert(c@.drop_last() =~= before);
        assert(vs@.take(i + 1).drop_last() =~= vs@.take(i as int));
        i = i + 1;
    }
    assert(vs@.take(vs@.len() as int) =~= vs@);
    c
}

fn copy_atom(a: &ConditionAtom) -> (c: ConditionAtom)
    ensures
        atom_copies(c, *a),
        atom_sql(c) == atom_sql(*a),
    decreases a, 0nat,
{
    match a {
        ConditionAtom::Eq(col, v) => ConditionAtom::Eq(col, copy_value(v)),
        ConditionAtom::NotEq(col, v) => ConditionAtom::NotEq(col, copy_value(v)),
        ConditionAtom::Lt(col, v) => ConditionAtom::Lt(col, copy_value(v)),
        ConditionAtom::LtEq(col, v) => ConditionAtom::LtEq(col, copy_value(v)),
        ConditionAtom::Gt(col, v) => ConditionAtom::Gt(col, copy_value(v)),
        ConditionAtom::GtEq(col, v) => ConditionAtom::GtEq(col, copy_value(v)),
        ConditionAtom::Like(col, v) => ConditionAtom::Like(col, copy_value(v)),
        ConditionAtom::IsNull(col) => ConditionAtom::IsNull(col),
        ConditionAtom::IsNotNull(col) => ConditionAtom::IsNotNull(col),
        ConditionAtom::Between(col, lo, hi) => ConditionAtom::Between(
            col,
            copy_value(lo),
            copy_value(hi),
        ),
        ConditionAtom::InValues(col, vs) => ConditionAtom::InValues(col, copy_values(vs)),
        ConditionAtom::InSubquery(col, d) => ConditionAtom::InSubquery(col, Box::new(copy_query(d))),
        ConditionAtom::NotInSubquery(col, d) => ConditionAtom::NotInSubquery(
            col,
            Box::new(copy_query(d)),
        ),
        ConditionAtom::Exists(b) => ConditionAtom::Exists(Box::new(copy_subquery(b))),
        ConditionAtom::NotExists(b) => ConditionAtom::NotExists(Box::new(copy_subquery(b))),
        ConditionAtom::And => ConditionAtom::And,
        ConditionAtom::Or => ConditionAtom::Or,
    }
}

fn copy_atoms(atoms: &Vec<ConditionAtom>) -> (c: Vec<ConditionAtom>)
    ensures
        atoms_copy(c@, atoms@),
        atom_parts(c@) == atom_parts(atoms@),
    decreases atoms@, 0nat,
{
    let mut c: Vec<ConditionAtom> = Vec::new();
    let mut i: usize = 0;
    while i < atoms.len()
        invariant
            i <= atoms@.len(),
            c@.len() == i,
            atoms_copy(c@, atoms@.take(i as int)),
            atom_parts(c@) == atom_parts(atoms@.take(i as int)),
        decreases atoms@.len() - i,
    {
        let a = copy_atom(&atoms[i]);
        let ghost before = c@;
        c.push(a);
        assert(c@.drop_last() =~= before);
        assert(atoms@.take(i + 1).drop_last() =~= atoms@.take(i as int));
        i = i + 1;
    }
    assert(atoms@.take(atoms@.len() as int) =~= atoms@);
    c
}

fn copy_groups(gs: &Vec<Vec<ConditionAtom>>) -> (c: Vec<Vec<ConditionAtom>>)
    ensures
        c@.len() == gs@.len(),
        groups_copy(c@, gs@),
        group_parts(c@) == group_parts(gs@),
    decreases gs@, 1nat,
{
    let mut c: Vec<Vec<ConditionAtom>> = Vec::new();
    let mut i: usize = 0;
    while i < gs.len()
        invariant
            i <= gs@.len(),
            c@.len() == i,
            groups_copy(c@, gs@.take(i as int)),
            group_parts(c@) == group_parts(gs@.take(i as int)),
        decreases gs@.len() - i,
    {
        let g = copy_atoms(&gs[i]);
        let ghost before = c@;
        c.push(g);
        assert(c@.drop_last() =~= before);
        assert(gs@.take(i + 1).drop_last() =~= gs@.take(i as int));
        i = i + 1;
    }
    assert(gs@.take(gs@.len() as int) =~= gs@);
    c
}

fn copy_subquery(b: &SubqueryBody) -> (c: SubqueryBody)
    ensures
        body_copies(c, *b),
        subquery_sql(c) == subquery_sql(*b),
    decreases b, 0nat,
{
    match b {
        SubqueryBody::Query(d) => SubqueryBody::Query(Box::new(copy_query(d))),
        SubqueryBody::Sql(s) => SubqueryBody::Sql(s.clone()),
    }
}

/// A copy of a query that renders the same SELECT statement.
pub(crate) fn copy_query(d: &QueryInternData) -> (c: QueryInternData)
    ensures
        select_sql(c) == select_sql(*d),
        copies(c, *d),
    decreases d, 3nat,
{
    let source = match &d.subquery_source {
        Some(b) => Some(copy_subquery(b)),
        None => None,
    };
    let mut columns: Vec<ColumnExpr> = Vec::new();
    let mut i: usize = 0;
    while i < d.columns.len()
        invariant
            i <= d.columns@.len(),
            columns@ == d.columns@.take(i as int),
        decreases d.columns@.len() - i,
    {
        columns.push(d.columns[i]);
        i = i + 1;
    }
    let mut joins: Vec<JoinClause> = Vec::new();
    let mut i: usize = 0;
    while i < d.joins.len()
        invariant
            i <= d.joins@.len(),
            joins@ == d.joins@.take(i as int),
        decreases d.joins@.len() - i,
    {
        let j = d.joins[i].copy();
        joins.push(j);
        assert(d.joins@.take(i + 1) =~= d.joins@.take(i as int).push(d.joins@[i as int]));
        i = i + 1;
    }
    let mut group_by: Vec<&'static str> = Vec::new();
    let mut i: usize = 0;
    while i < d.group_by.len()
        invariant
            i <= d.group_by@.len(),
            group_by@ == d.group_by@.take(i as int),
        decreases d.group_by@.len() - i,
    {
        group_by.push(d.group_by[i]);
        i = i + 1;
    }
    assert(d.columns@.take(d.columns@.len() as int) =~= d.columns@);
    assert(d.joins@.take(d.joins@.len() as int) =~= d.joins@);
    assert(d.group_by@.take(d.group_by@.len() as int) =~= d.group_by@);
    let c = QueryInternData {
        table: d.table,
        subquery_source: source,
        columns,
        joins,
        conditions: copy_groups(&d.conditions),
        group_by,
        having: copy_groups(&d.having),
        order_by: d.order_by,
        limit: d.limit,
        offset: d.offset,
    };
    assert(from_sql(c) == from_sql(*d));
    c
}

} // verus!
