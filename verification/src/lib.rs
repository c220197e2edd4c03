//! A query builder whose schema (tables, columns, primary and foreign keys,
//! nullability) lives in the type system, and which renders SELECT, INSERT,
//! UPDATE, DELETE and CREATE TABLE statements as text.
use std::marker::PhantomData;
use vstd::prelude::*;

pub mod condition;
pub mod delete;
pub mod derive;
pub mod execute;
pub mod init;
pub mod insert;
pub mod join;
pub mod laws;
pub mod query;
pub mod render;
pub mod select;
pub mod string_runner;
pub mod text;
pub mod update;

pub use condition::{
    ClauseState, ConditionAtom, ExpectsOperand, HasCondition, IntoValue, NeedsOperand, NoCondition, Value,
    ValueView, WhereClause,
};
pub use delete::{DeleteBuilder, DeletePhase};
pub use execute::{DeleteData, InsertData, NotExecutable, QueryData, Runner, UpdateData};

pub use init::{ColumnDef, DbAdapter, SqlTypeKind, TableInit, ToSqlType};
pub use insert::{InsertBuilder, InsertPhase, WithValues};
pub use join::{ForeignKey, HasPrimaryKey, JoinClause, JoinType, PrimaryKey};
pub use query::{QueryBuilder, QueryInternData, QueryPhase, SubqueryBody};
pub use select::{
    ColumnSet, Count, Max, Min, NotNull, NotNullColumn, Nullable, NullableColumn, SelectExpr, Sum,
    UniqueColumn,
};

pub use string_runner::StringRunner;
pub use update::{UpdateBuilder, UpdatePhase, WithSet};

verus! {

// ── Builder phases ────────────────────────────────────────────────────────────

/// Phase of a builder that has no table yet.
#[derive(Clone, Default)]
pub struct NoTable;

/// Phase of a builder whose table is `T`.
pub struct WithTable<T>(PhantomData<T>);

/// Marker for `SELECT *`.
pub struct AllColumns;

/// Phase of a query on table `T` whose columns `Cols` are chosen.
pub struct WithColumns<T, Cols = AllColumns>(PhantomData<(T, Cols)>);

// ── Seal markers ──────────────────────────────────────────────────────────────

#[derive(Clone, Default)]
pub struct Sealed;

#[derive(Clone, Default)]
pub struct NotSealed;

// ── Typed subquery ────────────────────────────────────────────────────────────

/// A one-column query, usable on the right of `IN` where its column's value
/// type `Val` matches the left column's.
pub struct Subquery<Val> {
    pub(crate) data: QueryInternData,
    _phantom: PhantomData<Val>,
}

impl<Val> Subquery<Val> {
    /// The query this subquery runs.
    pub closed spec fn query(&self) -> QueryInternData {
        self.data
    }

    pub(crate) fn new(data: QueryInternData) -> (s: Self)
        ensures
            s.query() == data,
    {
        Subquery { data, _phantom: PhantomData }
    }
}

/// Something that can stand as a subquery: a built query or its SQL text.
pub trait SubquerySql: Sized {
    /// The SQL text of the subquery.
    spec fn subquery_text(&self) -> Seq<char>;

    fn into_subquery_data(self) -> (body: SubqueryBody)
        ensures
            render::subquery_sql(body) == self.subquery_text(),
    ;
}

impl<Val> SubquerySql for Subquery<Val> {
    open spec fn subquery_text(&self) -> Seq<char> {
        render::select_sql(self.query())
    }

    fn into_subquery_data(self) -> (body: SubqueryBody) {
        SubqueryBody::Query(Box::new(self.data))
    }
}

impl SubquerySql for String {
    open spec fn subquery_text(&self) -> Seq<char> {
        self@
    }

    fn into_subquery_data(self) -> (body: SubqueryBody) {
        SubqueryBody::Sql(self)
    }
}

// ── Core table / column traits ────────────────────────────────────────────────

/// A table of the schema.
pub trait TableSchema {
    const TABLE_NAME: &'static str;
}

/// A column of table `T`, with its value type and nullability marker.
pub trait BelongsTo<T: TableSchema> {
    type Value;

    type Null;

    const COLUMN_NAME: &'static str;
}

// ── Column expression data ────────────────────────────────────────────────────

/// One entry of a select list.
#[derive(Clone, Copy, Debug)]
pub enum ColumnExpr {
    All,
    Column { table: &'static str, name: &'static str },
    Count,
    Max { table: &'static str, name: &'static str },
    Min { table: &'static str, name: &'static str },
    Sum { table: &'static str, name: &'static str },
}

// ── Order direction ───────────────────────────────────────────────────────────

#[derive(Clone, Copy, Debug)]
pub enum Direction {
    Asc,
    Desc,
}

impl Direction {
    pub(crate) fn sql(&self) -> (s: &'static str)
        ensures
            s@ == render::direction_sql(*self),
    {
        match self {
            Direction::Asc => "ASC",
            Direction::Desc => "DESC",
        }
    }
}

} // verus!
