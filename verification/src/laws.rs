//! What holds of the rendered SQL across builder calls.
use vstd::prelude::*;

use crate::condition::{alternates, is_connector, ConditionAtom, Value};
use crate::derive::{
    fields_plan, is_ascii_text, lemma_fields_plan_keeps_error, lemma_pascal_case_plain,
    lemma_pascal_case_shape, pascal_case, table_plan, ColumnView, FieldView, ShapeView, StructView,
};
use crate::query::{QueryInternData, SubqueryBody};
use crate::execute::{DeleteData, InsertData, UpdateData};
use crate::query::QueryBuilder;
use crate::render::{
    assignment_parts, assignment_sql, assignments_sql, atom_parts, atom_sql, col_expr_parts,
    col_expr_sql, columns_sql, delete_sql, fragment_sql, from_sql, group_parts, having_sql,
    direction_sql, insert_sql, limit_sql, name_parts, names_sql, offset_sql, select_sql,
    subquery_sql, update_sql, value_parts, value_sql, values_sql, where_sql,
};
use crate::select::{ColumnSet, Count, Max, Min, SelectExpr, Sum};
use crate::condition::{IntoValue, ValueView};
use crate::{BelongsTo, ColumnExpr, Subquery, SubquerySql, TableSchema, WithColumns};
use crate::text::{
    all_digits, decimal, digits_value, int_decimal, lemma_decimal_denotes, lemma_join_push,
    lemma_text_literal_reads_back, read_text_literal,
};
use crate::init::{column_def_parts, column_def_sql, create_table_sql_of, ColumnDef};
use crate::join::{JoinClause, JoinType};
use crate::Direction;

verus! {

/// Several WHERE conditions are joined by `AND` at the top level, each in its
/// own parentheses: one more condition adds ` AND (...)`, or ` WHERE (...)`
/// where it is the first.
pub proof fn law_where_conditions_and_joined(
    before: Seq<Vec<ConditionAtom>>,
    clause: Vec<ConditionAtom>,
)
    ensures
        where_sql(before.push(clause)) == if before.len() == 0 {
            " WHERE "@ + ("("@ + fragment_sql(clause@) + ")"@)
        } else {
            where_sql(before) + " AND "@ + ("("@ + fragment_sql(clause@) + ")"@)
        },
{
    assert(before.push(clause).drop_last() =~= before);
    lemma_join_push(group_parts(before), " AND "@, "("@ + fragment_sql(clause@) + ")"@);
}

/// HAVING conditions are joined in the same way as WHERE conditions.
pub proof fn law_having_conditions_and_joined(
    before: Seq<Vec<ConditionAtom>>,
    clause: Vec<ConditionAtom>,
)
    ensures
        having_sql(before.push(clause)) == if before.len() == 0 {
            " HAVING "@ + ("("@ + fragment_sql(clause@) + ")"@)
        } else {
            having_sql(before) + " AND "@ + ("("@ + fragment_sql(clause@) + ")"@)
        },
{
    assert(before.push(clause).drop_last() =~= before);
    lemma_join_push(group_parts(before), " AND "@, "("@ + fragment_sql(clause@) + ")"@);
}

/// Inside one condition, each further atom (a predicate, `AND` or `OR`)
/// follows the earlier ones after a single space.
pub proof fn law_atoms_space_separated(before: Seq<ConditionAtom>, atom: ConditionAtom)
    ensures
        fragment_sql(before.push(atom)) == if before.len() == 0 {
            atom_sql(atom)
        } else {
            fragment_sql(before) + " "@ + atom_sql(atom)
        },
{
    assert(before.push(atom).drop_last() =~= before);
    lemma_join_push(atom_parts(before), " "@, atom_sql(atom));
}

/// A condition that the builder hands to a query (one that alternates and
/// ends in a predicate) begins and ends with a predicate, and never holds two
/// connectors or two predicates side by side.
pub proof fn law_conditions_alternate(s: Seq<ConditionAtom>)
    requires
        alternates(s),
        s.len() % 2 == 1,
    ensures
        !is_connector(s[0]),
        !is_connector(s.last()),
        forall|i: int| 0 <= i < s.len() - 1 ==> is_connector(#[trigger] s[i]) != is_connector(s[i + 1]),
{
    assert(!is_connector(s[s.len() - 1]));
    assert forall|i: int| 0 <= i < s.len() - 1 implies is_connector(#[trigger] s[i]) != is_connector(
        s[i + 1],
    ) by {
        assert(is_connector(s[i]) <==> i % 2 == 1);
        assert(is_connector(s[i + 1]) <==> (i + 1) % 2 == 1);
    }
}

/// A text value is quoted with its single quotes doubled, so that the literal
/// reads back as exactly that text: no text ends its literal early, and two
/// texts never share a literal.
pub proof fn law_text_values_read_back(s: String)
    ensures
        read_text_literal(value_sql(Value::Text(s))) == Some(s@),
{
    lemma_text_literal_reads_back(s@);
}

/// An integer value is rendered in decimal: an optional minus sign, then
/// digits without a leading zero that denote its magnitude.
pub proof fn law_integers_in_decimal(i: i64)
    ensures
        value_sql(Value::Int(i)) == int_decimal(i as int),
        i < 0 ==> value_sql(Value::Int(i))[0] == '-' && digits_value(
            value_sql(Value::Int(i)).drop_first(),
        ) == -(i as int),
        i >= 0 ==> digits_value(value_sql(Value::Int(i))) == i,
        i > 0 ==> value_sql(Value::Int(i))[0] != '0',
{
    if i < 0 {
        lemma_decimal_denotes((-i) as nat);
        assert(value_sql(Value::Int(i)).drop_first() =~= decimal((-i) as nat));
    } else {
        lemma_decimal_denotes(i as nat);
    }
}

/// A built query handed over as SQL text stands in a subquery exactly as the
/// query itself does.
pub proof fn law_text_subquery_matches_query(d: QueryInternData, s: String)
    requires
        s@ == select_sql(d),
    ensures
        subquery_sql(SubqueryBody::Sql(s)) == subquery_sql(SubqueryBody::Query(Box::new(d))),
{
}

/// `IN` and `NOT IN` embed the subquery's own SELECT statement in parentheses.
pub proof fn law_in_subquery_embeds_select(col: &'static str, d: QueryInternData)
    ensures
        atom_sql(ConditionAtom::InSubquery(col, Box::new(d))) == col@ + " IN ("@ + select_sql(d)
            + ")"@,
        atom_sql(ConditionAtom::NotInSubquery(col, Box::new(d))) == col@ + " NOT IN ("@
            + select_sql(d) + ")"@,
{
}

/// A query over table `t` selects from `t`, or from its subquery under the
/// alias `t`; the fallback names never show where the table is known.
pub proof fn law_from_names_the_table(d: QueryInternData, t: &'static str)
    requires
        d.table == Some(t),
    ensures
        from_sql(d) == match d.subquery_source {
            Some(b) => "("@ + subquery_sql(b) + ") AS "@ + t@,
            None => t@,
        },
{
}

/// `LIMIT`, `OFFSET` and `ORDER BY` keep only the last value given.
pub proof fn law_last_setting_wins(
    d: QueryInternData,
    a: usize,
    b: usize,
    c1: &'static str,
    dir1: Direction,
    c2: &'static str,
    dir2: Direction,
)
    ensures
        select_sql(QueryInternData { limit: Some(b), ..QueryInternData { limit: Some(a), ..d } })
            == select_sql(QueryInternData { limit: Some(b), ..d }),
        select_sql(QueryInternData { offset: Some(b), ..QueryInternData { offset: Some(a), ..d } })
            == select_sql(QueryInternData { offset: Some(b), ..d }),
        select_sql(
            QueryInternData {
                order_by: Some((c2, dir2)),
                ..QueryInternData { order_by: Some((c1, dir1)), ..d }
            },
        ) == select_sql(QueryInternData { order_by: Some((c2, dir2)), ..d }),
{
    assert(QueryInternData { limit: Some(b), ..QueryInternData { limit: Some(a), ..d } }
        == QueryInternData { limit: Some(b), ..d });
    assert(QueryInternData { offset: Some(b), ..QueryInternData { offset: Some(a), ..d } }
        == QueryInternData { offset: Some(b), ..d });
    assert(QueryInternData {
        order_by: Some((c2, dir2)),
        ..QueryInternData { order_by: Some((c1, dir1)), ..d }
    } == QueryInternData { order_by: Some((c2, dir2)), ..d });
}

/// Whether a list of columns has its primary key, if any, in one column only,
/// that column not nullable, and `pk` naming that column's type.
pub open spec fn one_primary_key(cols: Seq<ColumnView>, pk: Option<Seq<char>>) -> bool {
    &&& forall|i: int, j: int|
        0 <= i < cols.len() && 0 <= j < cols.len() && (#[trigger] cols[i]).primary_key
            && (#[trigger] cols[j]).primary_key ==> i == j
    &&& forall|i: int|
        0 <= i < cols.len() && (#[trigger] cols[i]).primary_key ==> !cols[i].nullable && pk
            == Some(cols[i].type_ident)
    &&& pk is Some ==> exists|i: int| 0 <= i < cols.len() && (#[trigger] cols[i]).primary_key
}

proof fn lemma_fields_one_primary_key(fields: Seq<FieldView>)
    ensures
        fields_plan(fields) matches Ok((cols, pk)) ==> one_primary_key(cols, pk),
    decreases fields.len(),
{
    if fields.len() > 0 {
        lemma_fields_one_primary_key(fields.drop_last());
        if let Ok((cols, pk)) = fields_plan(fields) {
            let (cols0, pk0) = fields_plan(fields.drop_last())->Ok_0;
            let c = crate::derive::column_of(fields.last());
            assert(cols == cols0.push(c));
            let n = cols0.len() as int;
            if c.primary_key {
                assert(pk0 is None);
                assert(pk == Some(c.type_ident));
                assert forall|i: int| 0 <= i < n implies !(#[trigger] cols[i]).primary_key by {
                    assert(cols[i] == cols0[i]);
                }
                assert(cols[n].primary_key);
            } else {
                assert(pk == pk0);
                assert forall|i: int| 0 <= i < n implies #[trigger] cols[i] == cols0[i] by {}
                assert(!cols[n].primary_key);
                if pk0 is Some {
                    let k = choose|k: int| 0 <= k < cols0.len() && (#[trigger] cols0[k]).primary_key;
                    assert(cols[k] == cols0[k]);
                }
            }
        }
    }
}

/// A struct that becomes a table has at most one primary key column, never a
/// nullable one, and the table's primary key is that column's type.
pub proof fn law_derive_one_primary_key(input: StructView)
    ensures
        table_plan(input) matches Ok(t) ==> one_primary_key(t.columns, t.primary_key),
{
    if let ShapeView::Named(fields) = input.shape {
        lemma_fields_one_primary_key(fields);
    }
}

/// A struct with a second primary key field, or with a nullable one, does not
/// become a table.
pub proof fn law_derive_rejects_bad_primary_keys(fields: Seq<FieldView>, i: int)
    requires
        0 <= i < fields.len(),
        fields_plan(fields.take(i)) matches Ok((cols, pk)) && crate::derive::column_of(
            fields[i],
        ).primary_key && (pk is Some || crate::derive::column_of(fields[i]).nullable),
    ensures
        fields_plan(fields) is Err,
{
    assert(fields.take(i + 1).drop_last() =~= fields.take(i));
    assert(fields.take(i + 1).last() == fields[i]);
    lemma_fields_plan_keeps_error(fields, i + 1);
}

/// Turning an ASCII name into PascalCase a second time changes nothing.
pub proof fn law_pascal_case_idempotent(s: Seq<char>)
    requires
        is_ascii_text(s),
    ensures
        pascal_case(pascal_case(s)) == pascal_case(s),
{
    let p = pascal_case(s);
    lemma_pascal_case_shape(s);
    if p.len() == 0 {
        assert(p =~= Seq::<char>::empty());
    } else {
        lemma_pascal_case_plain(p);
        assert(seq![p[0]] + p.drop_first() =~= p);
    }
}

// ── Select lists ──────────────────────────────────────────────────────────────

/// A tuple of select entries lists each of its entries once, at its own
/// position: the list of a tuple is the list of the tuple without its last
/// entry, followed by that entry.
pub proof fn law_column_sets_extend<
    T: TableSchema,
    C1: SelectExpr<T>,
    C2: SelectExpr<T>,
    C3: SelectExpr<T>,
    C4: SelectExpr<T>,
    C5: SelectExpr<T>,
    C6: SelectExpr<T>,
    C7: SelectExpr<T>,
    C8: SelectExpr<T>,
    C9: SelectExpr<T>,
    C10: SelectExpr<T>,
    C11: SelectExpr<T>,
    C12: SelectExpr<T>,
    C13: SelectExpr<T>,
    C14: SelectExpr<T>,
    C15: SelectExpr<T>,
    C16: SelectExpr<T>,
>()
    ensures
        <(C1,) as ColumnSet<T>>::column_list() == seq![C1::select_entry()],
        <(C1, C2) as ColumnSet<T>>::column_list() == <(C1,) as ColumnSet<T>>::column_list().push(
            C2::select_entry(),
        ),
        <(C1, C2, C3) as ColumnSet<T>>::column_list() == <(C1, C2) as ColumnSet<
            T,
        >>::column_list().push(C3::select_entry()),
        <(C1, C2, C3, C4) as ColumnSet<T>>::column_list() == <(C1, C2, C3) as ColumnSet<
            T,
        >>::column_list().push(C4::select_entry()),
        <(C1, C2, C3, C4, C5) as ColumnSet<T>>::column_list() == <(C1, C2, C3, C4) as ColumnSet<
            T,
        >>::column_list().push(C5::select_entry()),
        <(C1, C2, C3, C4, C5, C6) as ColumnSet<T>>::column_list() == <(
            C1,
            C2,
            C3,
            C4,
            C5,
        ) as ColumnSet<T>>::column_list().push(C6::select_entry()),
        <(C1, C2, C3, C4, C5, C6, C7) as ColumnSet<T>>::column_list() == <(
            C1,
            C2,
            C3,
            C4,
            C5,
            C6,
        ) as ColumnSet<T>>::column_list().push(C7::select_entry()),
        <(C1, C2, C3, C4, C5, C6, C7, C8) as ColumnSet<T>>::column_list() == <(
            C1,
            C2,
            C3,
            C4,
            C5,
            C6,
            C7,
        ) as ColumnSet<T>>::column_list().push(C8::select_entry()),
        <(C1, C2, C3, C4, C5, C6, C7, C8, C9) as ColumnSet<T>>::column_list() == <(
            C1,
            C2,
            C3,
            C4,
            C5,
            C6,
            C7,
            C8,
        ) as ColumnSet<T>>::column_list().push(C9::select_entry()),
        <(C1, C2, C3, C4, C5, C6, C7, C8, C9, C10) as ColumnSet<T>>::column_list() == <(
            C1,
            C2,
            C3,
            C4,
            C5,
            C6,
            C7,
            C8,
            C9,
        ) as ColumnSet<T>>::column_list().push(C10::select_entry()),
        <(C1, C2, C3, C4, C5, C6, C7, C8, C9, C10, C11) as ColumnSet<T>>::column_list() == <(
            C1,
            C2,
            C3,
            C4,
            C5,
            C6,
            C7,
            C8,
            C9,
            C10,
        ) as ColumnSet<T>>::column_list().push(C11::select_entry()),
        <(C1, C2, C3, C4, C5, C6, C7, C8, C9, C10, C11, C12) as ColumnSet<T>>::column_list() == <(
            C1,
            C2,
            C3,
            C4,
            C5,
            C6,
            C7,
            C8,
            C9,
            C10,
            C11,
        ) as ColumnSet<T>>::column_list().push(C12::select_entry()),
        <(C1, C2, C3, C4, C5, C6, C7, C8, C9, C10, C11, C12, C13) as ColumnSet<T>>::column_list()
            == <(C1, C2, C3, C4, C5, C6, C7, C8, C9, C10, C11, C12) as ColumnSet<
            T,
        >>::column_list().push(C13::select_entry()),
        <(C1, C2, C3, C4, C5, C6, C7, C8, C9, C10, C11, C12, C13, C14) as ColumnSet<
            T,
        >>::column_list() == <(C1, C2, C3, C4, C5, C6, C7, C8, C9, C10, C11, C12, C13) as ColumnSet<
            T,
        >>::column_list().push(C14::select_entry()),
        <(C1, C2, C3, C4, C5, C6, C7, C8, C9, C10, C11, C12, C13, C14, C15) as ColumnSet<
            T,
        >>::column_list() == <(
            C1,
            C2,
            C3,
            C4,
            C5,
            C6,
            C7,
            C8,
            C9,
            C10,
            C11,
            C12,
            C13,
            C14,
        ) as ColumnSet<T>>::column_list().push(C15::select_entry()),
        <(C1, C2, C3, C4, C5, C6, C7, C8, C9, C10, C11, C12, C13, C14, C15, C16) as ColumnSet<
            T,
        >>::column_list() == <(
            C1,
            C2,
            C3,
            C4,
            C5,
            C6,
            C7,
            C8,
            C9,
            C10,
            C11,
            C12,
            C13,
            C14,
            C15,
        ) as ColumnSet<T>>::column_list().push(C16::select_entry()),
{
}

/// A select list renders each entry in order, separated by `, `: one more
/// entry adds `, ` and its text.
pub proof fn law_select_list_comma_separated(cols: Seq<crate::ColumnExpr>, e: crate::ColumnExpr)
    requires
        cols.len() > 0,
    ensures
        columns_sql(cols.push(e)) == columns_sql(cols) + ", "@ + col_expr_sql(e),
{
    assert(cols.push(e).drop_last() =~= cols);
    lemma_join_push(col_expr_parts(cols), ", "@, col_expr_sql(e));
}

// ── INSERT, UPDATE, DELETE ────────────────────────────────────────────────────

/// An UPDATE's conditions are joined as a SELECT's are: one more condition
/// adds ` AND (...)` to the statement, or ` WHERE (...)` where it is the first.
pub proof fn law_update_conditions_and_joined(
    d1: UpdateData,
    d2: UpdateData,
    clause: Vec<ConditionAtom>,
)
    requires
        d2.table == d1.table,
        d2.assignments@ == d1.assignments@,
        d2.conditions@ == d1.conditions@.push(clause),
    ensures
        update_sql(d2) == update_sql(d1) + if d1.conditions@.len() == 0 {
            " WHERE "@
        } else {
            " AND "@
        } + "("@ + fragment_sql(clause@) + ")"@,
{
    law_where_conditions_and_joined(d1.conditions@, clause);
    assert(update_sql(d2) =~= update_sql(d1) + if d1.conditions@.len() == 0 {
        " WHERE "@
    } else {
        " AND "@
    } + "("@ + fragment_sql(clause@) + ")"@);
}

/// A DELETE's conditions are joined as a SELECT's are.
pub proof fn law_delete_conditions_and_joined(
    d1: DeleteData,
    d2: DeleteData,
    clause: Vec<ConditionAtom>,
)
    requires
        d2.table == d1.table,
        d2.conditions@ == d1.conditions@.push(clause),
    ensures
        delete_sql(d2) == delete_sql(d1) + if d1.conditions@.len() == 0 {
            " WHERE "@
        } else {
            " AND "@
        } + "("@ + fragment_sql(clause@) + ")"@,
{
    law_where_conditions_and_joined(d1.conditions@, clause);
    assert(delete_sql(d2) =~= delete_sql(d1) + if d1.conditions@.len() == 0 {
        " WHERE "@
    } else {
        " AND "@
    } + "("@ + fragment_sql(clause@) + ")"@);
}

/// UPDATE, DELETE and SELECT render the same conditions with the same WHERE
/// text at their end.
pub proof fn law_where_text_shared(u: UpdateData, d: DeleteData, q: QueryInternData)
    requires
        u.conditions@ == d.conditions@,
        d.conditions@ == q.conditions@,
    ensures
        update_sql(u) == "UPDATE "@ + u.table@ + " SET "@ + assignments_sql(u.assignments@)
            + where_sql(q.conditions@),
        delete_sql(d) == "DELETE FROM "@ + d.table@ + where_sql(q.conditions@),
{
}

/// One more column and value of an INSERT are added at the end of its two
/// lists, each after `, `.
pub proof fn law_insert_lists_pair_up(
    d1: InsertData,
    d2: InsertData,
    col: &'static str,
    v: Value,
)
    requires
        d2.table == d1.table,
        d1.columns@.len() > 0,
        d1.values@.len() > 0,
        d2.columns@ == d1.columns@.push(col),
        d2.values@ == d1.values@.push(v),
    ensures
        names_sql(d2.columns@) == names_sql(d1.columns@) + ", "@ + col@,
        values_sql(d2.values@) == values_sql(d1.values@) + ", "@ + value_sql(v),
        insert_sql(d2) == "INSERT INTO "@ + d1.table@ + " ("@ + names_sql(d1.columns@) + ", "@
            + col@ + ") VALUES ("@ + values_sql(d1.values@) + ", "@ + value_sql(v) + ")"@,
{
    assert(d2.columns@.drop_last() =~= d1.columns@);
    assert(d2.values@.drop_last() =~= d1.values@);
    lemma_join_push(name_parts(d1.columns@), ", "@, col@);
    lemma_join_push(value_parts(d1.values@), ", "@, value_sql(v));
    assert(insert_sql(d2) =~= "INSERT INTO "@ + d1.table@ + " ("@ + names_sql(d1.columns@) + ", "@
        + col@ + ") VALUES ("@ + values_sql(d1.values@) + ", "@ + value_sql(v) + ")"@);
}

/// One more assignment of an UPDATE is added after `, `.
pub proof fn law_assignments_comma_separated(
    s: Seq<(&'static str, Option<Value>)>,
    a: (&'static str, Option<Value>),
)
    requires
        s.len() > 0,
    ensures
        assignments_sql(s.push(a)) == assignments_sql(s) + ", "@ + assignment_sql(a),
{
    assert(s.push(a).drop_last() =~= s);
    lemma_join_push(assignment_parts(s), ", "@, assignment_sql(a));
}

// ── Values ────────────────────────────────────────────────────────────────────

proof fn lemma_literal_start(v: Value)
    requires
        !(v is Float),
    ensures
        value_sql(v).len() > 0,
        v is Int && (v->Int_0) < 0 ==> value_sql(v)[0] == '-',
        v is Int && (v->Int_0) >= 0 ==> '0' <= value_sql(v)[0] <= '9',
        v is Text ==> value_sql(v)[0] == '\'',
        v is Bool ==> value_sql(v)[0] == 'T' || value_sql(v)[0] == 'F',
        v is Bool ==> (value_sql(v)[0] == 'T' <==> v->Bool_0),
{
    match v {
        Value::Int(i) => {
            if i < 0 {
                lemma_decimal_denotes((-i) as nat);
            } else {
                lemma_decimal_denotes(i as nat);
                assert(crate::text::all_digits(decimal(i as nat)));
                assert('0' <= decimal(i as nat)[0] <= '9');
            }
        },
        Value::Bool(b) => {
            reveal_strlit("TRUE");
            reveal_strlit("FALSE");
        },
        _ => {},
    }
}

/// A literal tells its value: two values that are not floating-point numbers
/// render alike only where they are the same value. In particular `TRUE` and
/// `FALSE` differ, an integer's digits give back its number, and a text
/// literal reads back as its text.
pub proof fn law_literals_identify_values(v1: Value, v2: Value)
    requires
        !(v1 is Float),
        !(v2 is Float),
        value_sql(v1) == value_sql(v2),
    ensures
        v1@ == v2@,
{
    lemma_literal_start(v1);
    lemma_literal_start(v2);
    match (v1, v2) {
        (Value::Int(a), Value::Int(b)) => {
            if a < 0 && b < 0 {
                lemma_decimal_denotes((-a) as nat);
                lemma_decimal_denotes((-b) as nat);
                assert(value_sql(v1).drop_first() =~= decimal((-a) as nat));
                assert(value_sql(v2).drop_first() =~= decimal((-b) as nat));
            } else if a >= 0 && b >= 0 {
                lemma_decimal_denotes(a as nat);
                lemma_decimal_denotes(b as nat);
            }
        },
        (Value::Text(a), Value::Text(b)) => {
            lemma_text_literal_reads_back(a@);
            lemma_text_literal_reads_back(b@);
        },
        (Value::Bool(a), Value::Bool(b)) => {},
        _ => {},
    }
}

/// Each integer converts to the value of the same number; an unsigned one
/// above `i64::MAX` is the only exception, as `as i64` wraps it.
pub proof fn law_integers_convert_to_their_number(
    a: i32,
    b: i64,
    c: isize,
    d: u32,
    e: usize,
    f: u64,
)
    ensures
        a.value_view() matches ValueView::Int(n) && n as int == a as int,
        b.value_view() matches ValueView::Int(n) && n as int == b as int,
        c.value_view() matches ValueView::Int(n) && n as int == c as int,
        d.value_view() matches ValueView::Int(n) && n as int == d as int,
        e as int <= i64::MAX ==> (e.value_view() matches ValueView::Int(n) && n as int == e as int),
        f as int <= i64::MAX ==> (f.value_view() matches ValueView::Int(n) && n as int == f as int),
{
}

/// Booleans and texts convert to the value that holds them.
pub proof fn law_values_hold_what_they_convert(t: bool, s: String, r: &'static str)
    ensures
        t.value_view() == ValueView::Bool(t),
        s.value_view() == ValueView::Text(s@),
        r.value_view() == ValueView::Text(r@),
{
}

// ── Subqueries ────────────────────────────────────────────────────────────────

/// A built query stands as a subquery exactly as its own SELECT statement,
/// its limit and offset included: the same text that `build` returns.
pub proof fn law_builder_subquery_is_its_select<T: TableSchema, Cols, S, R, Row>(
    q: QueryBuilder<WithColumns<T, Cols>, S, R, Row>,
    built: String,
)
    requires
        built@ == select_sql(q@),
    ensures
        q.subquery_text() == select_sql(q@),
        q.subquery_text() == built.subquery_text(),
        subquery_sql(SubqueryBody::Query(Box::new(q@))) == q.subquery_text(),
{
}

/// A one-column subquery stands as the SELECT statement of its query.
pub proof fn law_typed_subquery_is_its_select<Val>(sq: Subquery<Val>)
    ensures
        sq.subquery_text() == select_sql(sq.query()),
        subquery_sql(SubqueryBody::Query(Box::new(sq.query()))) == sq.subquery_text(),
{
}

// ── Aggregates, comparisons, directions, numbers ─────────────────────────────

/// `MAX`, `MIN` and `SUM` wrap the column as a plain select entry renders it,
/// each under its own name; `COUNT(*)` counts rows.
pub proof fn law_aggregates_wrap_their_column(t: &'static str, n: &'static str)
    ensures
        col_expr_sql(ColumnExpr::Max { table: t, name: n }) == "MAX("@ + col_expr_sql(
            ColumnExpr::Column { table: t, name: n },
        ) + ")"@,
        col_expr_sql(ColumnExpr::Min { table: t, name: n }) == "MIN("@ + col_expr_sql(
            ColumnExpr::Column { table: t, name: n },
        ) + ")"@,
        col_expr_sql(ColumnExpr::Sum { table: t, name: n }) == "SUM("@ + col_expr_sql(
            ColumnExpr::Column { table: t, name: n },
        ) + ")"@,
        col_expr_sql(ColumnExpr::Count) == "COUNT("@ + col_expr_sql(ColumnExpr::All) + ")"@,
{
    assert(col_expr_sql(ColumnExpr::Max { table: t, name: n }) =~= "MAX("@ + col_expr_sql(
        ColumnExpr::Column { table: t, name: n },
    ) + ")"@);
    assert(col_expr_sql(ColumnExpr::Min { table: t, name: n }) =~= "MIN("@ + col_expr_sql(
        ColumnExpr::Column { table: t, name: n },
    ) + ")"@);
    assert(col_expr_sql(ColumnExpr::Sum { table: t, name: n }) =~= "SUM("@ + col_expr_sql(
        ColumnExpr::Column { table: t, name: n },
    ) + ")"@);
    reveal_strlit("COUNT(*)");
    reveal_strlit("COUNT(");
    reveal_strlit("*");
    reveal_strlit(")");
    assert(col_expr_sql(ColumnExpr::Count) =~= "COUNT("@ + col_expr_sql(ColumnExpr::All) + ")"@);
}

/// An aggregate over column `C` of table `T` stands for that function of that
/// column of that table.
pub proof fn law_aggregates_of_their_column<T: TableSchema, C: BelongsTo<T>>()
    ensures
        <Count as SelectExpr<T>>::select_entry() == ColumnExpr::Count,
        <Max<C> as SelectExpr<T>>::select_entry() == (ColumnExpr::Max {
            table: T::TABLE_NAME,
            name: C::COLUMN_NAME,
        }),
        <Min<C> as SelectExpr<T>>::select_entry() == (ColumnExpr::Min {
            table: T::TABLE_NAME,
            name: C::COLUMN_NAME,
        }),
        <Sum<C> as SelectExpr<T>>::select_entry() == (ColumnExpr::Sum {
            table: T::TABLE_NAME,
            name: C::COLUMN_NAME,
        }),
{
}

proof fn lemma_operator_differs(c: Seq<char>, o1: Seq<char>, o2: Seq<char>, w: Seq<char>, k: int)
    requires
        0 <= k < o1.len(),
        k < o2.len(),
        o1[k] != o2[k],
    ensures
        c + o1 + w != c + o2 + w,
{
    assert((c + o1 + w)[c.len() + k] == o1[k]);
    assert((c + o2 + w)[c.len() + k] == o2[k]);
}

/// The comparisons render differently from one another on the same column and
/// value, so that each keeps its own operator; `IS NULL` and `IS NOT NULL`
/// differ too, and `NOT EXISTS` is `NOT` before `EXISTS`.
pub proof fn law_predicates_keep_their_operator(c: &'static str, v: Value, b: SubqueryBody)
    ensures
        atom_sql(ConditionAtom::Eq(c, v)) != atom_sql(ConditionAtom::NotEq(c, v)),
        atom_sql(ConditionAtom::Eq(c, v)) != atom_sql(ConditionAtom::Lt(c, v)),
        atom_sql(ConditionAtom::Eq(c, v)) != atom_sql(ConditionAtom::LtEq(c, v)),
        atom_sql(ConditionAtom::Eq(c, v)) != atom_sql(ConditionAtom::Gt(c, v)),
        atom_sql(ConditionAtom::Eq(c, v)) != atom_sql(ConditionAtom::GtEq(c, v)),
        atom_sql(ConditionAtom::Eq(c, v)) != atom_sql(ConditionAtom::Like(c, v)),
        atom_sql(ConditionAtom::NotEq(c, v)) != atom_sql(ConditionAtom::Lt(c, v)),
        atom_sql(ConditionAtom::NotEq(c, v)) != atom_sql(ConditionAtom::LtEq(c, v)),
        atom_sql(ConditionAtom::NotEq(c, v)) != atom_sql(ConditionAtom::Gt(c, v)),
        atom_sql(ConditionAtom::NotEq(c, v)) != atom_sql(ConditionAtom::GtEq(c, v)),
        atom_sql(ConditionAtom::NotEq(c, v)) != atom_sql(ConditionAtom::Like(c, v)),
        atom_sql(ConditionAtom::Lt(c, v)) != atom_sql(ConditionAtom::LtEq(c, v)),
        atom_sql(ConditionAtom::Lt(c, v)) != atom_sql(ConditionAtom::Gt(c, v)),
        atom_sql(ConditionAtom::Lt(c, v)) != atom_sql(ConditionAtom::GtEq(c, v)),
        atom_sql(ConditionAtom::Lt(c, v)) != atom_sql(ConditionAtom::Like(c, v)),
        atom_sql(ConditionAtom::LtEq(c, v)) != atom_sql(ConditionAtom::Gt(c, v)),
        atom_sql(ConditionAtom::LtEq(c, v)) != atom_sql(ConditionAtom::GtEq(c, v)),
        atom_sql(ConditionAtom::LtEq(c, v)) != atom_sql(ConditionAtom::Like(c, v)),
        atom_sql(ConditionAtom::Gt(c, v)) != atom_sql(ConditionAtom::GtEq(c, v)),
        atom_sql(ConditionAtom::Gt(c, v)) != atom_sql(ConditionAtom::Like(c, v)),
        atom_sql(ConditionAtom::GtEq(c, v)) != atom_sql(ConditionAtom::Like(c, v)),
        atom_sql(ConditionAtom::IsNull(c)) != atom_sql(ConditionAtom::IsNotNull(c)),
        atom_sql(ConditionAtom::NotExists(Box::new(b))) == "NOT "@ + atom_sql(
            ConditionAtom::Exists(Box::new(b)),
        ),
{
    reveal_strlit(" = ");
    reveal_strlit(" <> ");
    reveal_strlit(" < ");
    reveal_strlit(" <= ");
    reveal_strlit(" > ");
    reveal_strlit(" >= ");
    reveal_strlit(" LIKE ");
    reveal_strlit(" IS NULL");
    reveal_strlit(" IS NOT NULL");
    reveal_strlit("NOT EXISTS (");
    reveal_strlit("NOT ");
    reveal_strlit("EXISTS (");
    let w = value_sql(v);
    let c = c@;
    lemma_operator_differs(c, " = "@, " <> "@, w, 1);
    lemma_operator_differs(c, " = "@, " < "@, w, 1);
    lemma_operator_differs(c, " = "@, " <= "@, w, 1);
    lemma_operator_differs(c, " = "@, " > "@, w, 1);
    lemma_operator_differs(c, " = "@, " >= "@, w, 1);
    lemma_operator_differs(c, " = "@, " LIKE "@, w, 1);
    lemma_operator_differs(c, " <> "@, " < "@, w, 2);
    lemma_operator_differs(c, " <> "@, " <= "@, w, 2);
    lemma_operator_differs(c, " <> "@, " > "@, w, 1);
    lemma_operator_differs(c, " <> "@, " >= "@, w, 1);
    lemma_operator_differs(c, " <> "@, " LIKE "@, w, 1);
    lemma_operator_differs(c, " < "@, " <= "@, w, 2);
    lemma_operator_differs(c, " < "@, " > "@, w, 1);
    lemma_operator_differs(c, " < "@, " >= "@, w, 1);
    lemma_operator_differs(c, " < "@, " LIKE "@, w, 1);
    lemma_operator_differs(c, " <= "@, " > "@, w, 1);
    lemma_operator_differs(c, " <= "@, " >= "@, w, 1);
    lemma_operator_differs(c, " <= "@, " LIKE "@, w, 1);
    lemma_operator_differs(c, " > "@, " >= "@, w, 2);
    lemma_operator_differs(c, " > "@, " LIKE "@, w, 1);
    lemma_operator_differs(c, " >= "@, " LIKE "@, w, 1);
    assert((c + " IS NULL"@).len() != (c + " IS NOT NULL"@).len());
    assert(atom_sql(ConditionAtom::NotExists(Box::new(b))) =~= "NOT "@ + atom_sql(
        ConditionAtom::Exists(Box::new(b)),
    ));
}

/// The two directions of ORDER BY are different words.
pub proof fn law_directions_differ()
    ensures
        direction_sql(Direction::Asc) != direction_sql(Direction::Desc),
{
    reveal_strlit("ASC");
    reveal_strlit("DESC");
    assert(direction_sql(Direction::Asc).len() != direction_sql(Direction::Desc).len());
}

/// `LIMIT` and `OFFSET` are followed by the digits of exactly their number,
/// and are absent where no number was given.
pub proof fn law_limit_and_offset_read_back(n: usize)
    ensures
        limit_sql(None) == Seq::<char>::empty(),
        offset_sql(None) == Seq::<char>::empty(),
        limit_sql(Some(n)).take(7) == " LIMIT "@,
        all_digits(limit_sql(Some(n)).skip(7)),
        digits_value(limit_sql(Some(n)).skip(7)) == n,
        offset_sql(Some(n)).take(8) == " OFFSET "@,
        all_digits(offset_sql(Some(n)).skip(8)),
        digits_value(offset_sql(Some(n)).skip(8)) == n,
{
    reveal_strlit(" LIMIT ");
    reveal_strlit(" OFFSET ");
    lemma_decimal_denotes(n as nat);
    assert(limit_sql(Some(n)).take(7) =~= " LIMIT "@);
    assert(limit_sql(Some(n)).skip(7) =~= decimal(n as nat));
    assert(offset_sql(Some(n)).take(8) =~= " OFFSET "@);
    assert(offset_sql(Some(n)).skip(8) =~= decimal(n as nat));
}

/// Lists of values and of names render each element in order, after `, `.
pub proof fn law_lists_comma_separated(
    vs: Seq<Value>,
    v: Value,
    ns: Seq<&'static str>,
    n: &'static str,
)
    ensures
        vs.len() > 0 ==> values_sql(vs.push(v)) == values_sql(vs) + ", "@ + value_sql(v),
        vs.len() == 0 ==> values_sql(vs.push(v)) == value_sql(v),
        ns.len() > 0 ==> names_sql(ns.push(n)) == names_sql(ns) + ", "@ + n@,
        ns.len() == 0 ==> names_sql(ns.push(n)) == n@,
{
    assert(vs.push(v).drop_last() =~= vs);
    assert(ns.push(n).drop_last() =~= ns);
    lemma_join_push(value_parts(vs), ", "@, value_sql(v));
    lemma_join_push(name_parts(ns), ", "@, n@);
}

// ── CREATE TABLE and joins ───────────────────────────────────────────────────

/// A nullable column is defined by its name and type alone; `NOT NULL` is
/// added for a column that is not nullable, and `PRIMARY KEY`, in its place,
/// for the primary key.
pub proof fn law_column_definition_marks(c: ColumnDef, kind_name: Seq<char>)
    ensures
        !c.primary_key && c.nullable ==> column_def_sql(c, kind_name) == c.name@ + " "@ + kind_name,
        !c.primary_key && !c.nullable ==> column_def_sql(c, kind_name) == column_def_sql(
            ColumnDef { nullable: true, ..c },
            kind_name,
        ) + " NOT NULL"@,
        c.primary_key ==> column_def_sql(c, kind_name) == column_def_sql(
            ColumnDef { nullable: true, primary_key: false, ..c },
            kind_name,
        ) + " PRIMARY KEY"@,
{
    assert(column_def_sql(c, kind_name) =~= c.name@ + " "@ + kind_name + if c.primary_key {
        " PRIMARY KEY"@
    } else if !c.nullable {
        " NOT NULL"@
    } else {
        seq![]
    });
}

/// One more column of CREATE TABLE comes after the others, after `, `.
pub proof fn law_create_table_columns_in_order(
    t: Seq<char>,
    defs: Seq<ColumnDef>,
    names: Seq<&'static str>,
    c: ColumnDef,
    n: &'static str,
)
    requires
        defs.len() == names.len(),
        defs.len() > 0,
    ensures
        create_table_sql_of(t, defs.push(c), names.push(n)) == create_table_sql_of(t, defs, names)
            .drop_last() + ", "@ + column_def_sql(c, n@) + ")"@,
{
    reveal_strlit(")");
    assert(defs.push(c).drop_last() =~= defs);
    assert(names.push(n).drop_last() =~= names);
    lemma_join_push(column_def_parts(defs, names), ", "@, column_def_sql(c, n@));
    let before = create_table_sql_of(t, defs, names);
    assert(before.drop_last() =~= "CREATE TABLE IF NOT EXISTS "@ + t + " ("@ + crate::text::join(
        column_def_parts(defs, names),
        ", "@,
    ));
    assert(create_table_sql_of(t, defs.push(c), names.push(n)) =~= before.drop_last() + ", "@
        + column_def_sql(c, n@) + ")"@);
}

/// An inner and a left join use different keywords.
pub proof fn law_join_kinds_differ()
    ensures
        JoinClause::keyword(JoinType::Inner) != JoinClause::keyword(JoinType::Left),
{
    reveal_strlit("INNER JOIN");
    reveal_strlit("LEFT JOIN");
    assert(JoinClause::keyword(JoinType::Inner).len() != JoinClause::keyword(JoinType::Left).len());
}

} // verus!
