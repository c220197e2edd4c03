//! Column metadata and the CREATE TABLE statement a database adapter runs.
use vstd::prelude::*;

use crate::text::{join, lemma_join_push};
use crate::TableSchema;

verus! {

// ── SQL type kinds ────────────────────────────────────────────────────────────

/// A database-neutral kind of column type.
#[derive(Clone, Copy, Debug, PartialEq, Eq, Structural)]
pub enum SqlTypeKind {
    Integer,
    BigInt,
    Real,
    Text,
    Boolean,
    Blob,
}

/// Maps a Rust type to the kind of column that stores it.
pub trait ToSqlType {
    const SQL_TYPE: SqlTypeKind;
}

impl ToSqlType for i8 {
    const SQL_TYPE: SqlTypeKind = SqlTypeKind::Integer;
}

impl ToSqlType for i16 {
    const SQL_TYPE: SqlTypeKind = SqlTypeKind::Integer;
}

impl ToSqlType for i32 {
    const SQL_TYPE: SqlTypeKind = SqlTypeKind::Integer;
}

impl ToSqlType for u8 {
    const SQL_TYPE: SqlTypeKind = SqlTypeKind::Integer;
}

impl ToSqlType for u16 {
    const SQL_TYPE: SqlTypeKind = SqlTypeKind::Integer;
}

impl ToSqlType for u32 {
    const SQL_TYPE: SqlTypeKind = SqlTypeKind::Integer;
}

impl ToSqlType for i64 {
    const SQL_TYPE: SqlTypeKind = SqlTypeKind::BigInt;
}

impl ToSqlType for u64 {
    const SQL_TYPE: SqlTypeKind = SqlTypeKind::BigInt;
}

impl ToSqlType for bool {
    const SQL_TYPE: SqlTypeKind = SqlTypeKind::Boolean;
}

impl ToSqlType for String {
    const SQL_TYPE: SqlTypeKind = SqlTypeKind::Text;
}

impl ToSqlType for str {
    const SQL_TYPE: SqlTypeKind = SqlTypeKind::Text;
}

impl ToSqlType for Vec<u8> {
    const SQL_TYPE: SqlTypeKind = SqlTypeKind::Blob;
}

// ── Column metadata ───────────────────────────────────────────────────────────

/// What CREATE TABLE says of one column.
pub struct ColumnDef {
    pub name: &'static str,
    pub sql_type: SqlTypeKind,
    pub nullable: bool,
    pub primary_key: bool,
}

/// A table whose columns are known, so that it can be created.
pub trait TableInit: TableSchema {
    /// The table's columns, in order.
    spec fn columns() -> Vec<ColumnDef>;

    fn column_defs() -> (v: Vec<ColumnDef>)
        ensures
            v@ == Self::columns()@,
    ;
}

// ── CREATE TABLE ──────────────────────────────────────────────────────────────

/// One column of CREATE TABLE: its name, its type name, then `PRIMARY KEY`,
/// or `NOT NULL` for a column that is not nullable.
pub open spec fn column_def_sql(c: ColumnDef, kind_name: Seq<char>) -> Seq<char> {
    c.name@ + " "@ + kind_name + if c.primary_key {
        " PRIMARY KEY"@
    } else if !c.nullable {
        " NOT NULL"@
    } else {
        seq![]
    }
}

/// Each column definition rendered with the type name beside it.
pub open spec fn column_def_parts(defs: Seq<ColumnDef>, names: Seq<&'static str>) -> Seq<
    Seq<char>,
>
    decreases defs.len(),
{
    if defs.len() == 0 {
        seq![]
    } else {
        column_def_parts(defs.drop_last(), names.drop_last()).push(
            column_def_sql(defs.last(), names.last()@),
        )
    }
}

/// `CREATE TABLE IF NOT EXISTS table (col type ..., ...)`
pub open spec fn create_table_sql_of(
    table: Seq<char>,
    defs: Seq<ColumnDef>,
    names: Seq<&'static str>,
) -> Seq<char> {
    "CREATE TABLE IF NOT EXISTS "@ + table + " ("@ + join(column_def_parts(defs, names), ", "@)
        + ")"@
}

/// The CREATE TABLE statement of `table`, whose columns `defs` have the type
/// names `type_names`, position by position.
pub fn render_create_table(
    table: &str,
    defs: &Vec<ColumnDef>,
    type_names: &Vec<&'static str>,
) -> (sql: String)
    requires
        defs@.len() == type_names@.len(),
    ensures
        sql@ == create_table_sql_of(table@, defs@, type_names@),
{
    let mut sql = String::from_str("CREATE TABLE IF NOT EXISTS ");
    sql.append(table);
    sql.append(" (");
    let ghost start = sql@;
    let mut i: usize = 0;
    while i < defs.len()
        invariant
            i <= defs@.len(),
            defs@.len() == type_names@.len(),
            sql@ == start + join(
                column_def_parts(defs@.take(i as int), type_names@.take(i as int)),
                ", "@,
            ),
        decreases defs@.len() - i,
    {
        proof {
            assert(defs@.take(i + 1).drop_last() =~= defs@.take(i as int));
            assert(type_names@.take(i + 1).drop_last() =~= type_names@.take(i as int));
            lemma_join_push(
                column_def_parts(defs@.take(i as int), type_names@.take(i as int)),
                ", "@,
                column_def_sql(defs@[i as int], type_names@[i as int]@),
            );
        }
        if i > 0 {
            sql.append(", ");
        }
        let c = &defs[i];
        sql.append(c.name);
        sql.append(" ");
        sql.append(type_names[i]);
        if c.primary_key {
            sql.append(" PRIMARY KEY");
        } else if !c.nullable {
            sql.append(" NOT NULL");
        }
        i = i + 1;
    }
    assert(defs@.take(defs@.len() as int) =~= defs@);
    assert(type_names@.take(type_names@.len() as int) =~= type_names@);
    sql.append(")");
    sql
}

// ── DbAdapter trait ───────────────────────────────────────────────────────────

/// A database: it names each kind of column type in its own dialect and runs
/// SQL text. Creating tables comes with it.
pub trait DbAdapter {
    /// This database's name for a kind of column type.
    spec fn dialect_type(&self, ty: SqlTypeKind) -> &'static str;

    /// This database's name for a kind of column type.
    fn sql_type_name(&self, ty: SqlTypeKind) -> (n: &'static str)
        ensures
            n == self.dialect_type(ty),
    ;

    /// Whether this adapter has been handed the statement `sql` to run. An
    /// adapter runs statements through `&self`, so what running does to it is
    /// its own affair; one that states nothing keeps the default, which holds
    /// of every statement.
    open spec fn ran(&self, sql: Seq<char>) -> bool {
        true
    }

    /// Runs a statement.
    fn execute(&self, sql: &str)
        ensures
            self.ran(sql@),
    ;

    /// The `CREATE TABLE IF NOT EXISTS` statement for `T`: its columns as
    /// `T::column_defs` lists them, in order, each with the type name that
    /// `sql_type_name` gives for its kind.
    fn create_table_sql<T: TableInit>(&self) -> (sql: String)
        ensures
            sql@ == create_table_sql_of(
                T::TABLE_NAME@,
                T::columns()@,
                Seq::new(
                    T::columns()@.len(),
                    |i: int| self.dialect_type(T::columns()@[i].sql_type),
                ),
            ),
    {
        let cols = T::column_defs();
        let mut names: Vec<&'static str> = Vec::new();
        let mut i: usize = 0;
        while i < cols.len()
            invariant
                i <= cols@.len(),
                cols@ == T::columns()@,
                names@.len() == i,
                forall|j: int| 0 <= j < i ==> #[trigger] names@[j] == self.dialect_type(cols@[j].sql_type),
            decreases cols@.len() - i,
        {
            names.push(self.sql_type_name(cols[i].sql_type));
            i = i + 1;
        }
        assert(names@ =~= Seq::new(
            T::columns()@.len(),
            |i: int| self.dialect_type(T::columns()@[i].sql_type),
        ));
        render_create_table(T::TABLE_NAME, &cols, &names)
    }

    /// Creates table `T` by running its CREATE TABLE statement.
    fn init_table<T: TableInit>(&self)
        ensures
            self.ran(
                create_table_sql_of(
                    T::TABLE_NAME@,
                    T::columns()@,
                    Seq::new(
                        T::columns()@.len(),
                        |i: int| self.dialect_type(T::columns()@[i].sql_type),
                    ),
                ),
            ),
    {
        let sql = self.create_table_sql::<T>();
        self.execute(sql.as_str());
    }
}

} // verus!
