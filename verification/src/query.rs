//! The SELECT query builder and the data it collects.
use std::marker::PhantomData;
use vstd::prelude::*;

use crate::condition::{alternates, ConditionAtom, HasCondition, WhereClause};
use crate::execute::{NotExecutable, QueryData, Runner};
use crate::join::{ForeignKey, JoinClause, JoinType};
use crate::render;
use crate::select::ColumnSet;
use crate::{
    AllColumns, BelongsTo, ColumnExpr, Direction, NoTable, NotSealed, Subquery, SubquerySql,
    TableSchema, WithColumns, WithTable,
};

verus! {

// ── Query internal data ───────────────────────────────────────────────────────

/// Where a subquery comes from: a query built here, or SQL text.
pub enum SubqueryBody {
    Query(Box<QueryInternData>),
    Sql(String),
}

/// Everything a SELECT statement is rendered from.
pub struct QueryInternData {
    pub table: Option<&'static str>,
    pub subquery_source: Option<SubqueryBody>,
    pub columns: Vec<ColumnExpr>,
    pub joins: Vec<JoinClause>,
    pub conditions: Vec<Vec<ConditionAtom>>,
    pub group_by: Vec<&'static str>,
    pub having: Vec<Vec<ConditionAtom>>,
    pub order_by: Option<(&'static str, Direction)>,
    pub limit: Option<usize>,
    pub offset: Option<usize>,
}

impl QueryInternData {
    /// No table, no source, and every list empty.
    pub open spec fn is_blank(&self) -> bool {
        &&& self.table is None
        &&& self.subquery_source is None
        &&& self.columns@.len() == 0
        &&& self.joins@.len() == 0
        &&& self.conditions@.len() == 0
        &&& self.group_by@.len() == 0
        &&& self.having@.len() == 0
        &&& self.order_by is None
        &&& self.limit is None
        &&& self.offset is None
    }

    pub(crate) fn blank() -> (d: Self)
        ensures
            d.is_blank(),
    {
        QueryInternData {
            table: None,
            subquery_source: None,
            columns: Vec::new(),
            joins: Vec::new(),
            conditions: Vec::new(),
            group_by: Vec::new(),
            having: Vec::new(),
            order_by: None,
            limit: None,
            offset: None,
        }
    }
}

// ── Query builder ─────────────────────────────────────────────────────────────

/// A phase of a query, by the table a query in it selects from.
pub trait QueryPhase {
    spec fn table() -> Option<&'static str>;
}

impl QueryPhase for NoTable {
    open spec fn table() -> Option<&'static str> {
        None
    }
}

impl<T: TableSchema> QueryPhase for WithTable<T> {
    open spec fn table() -> Option<&'static str> {
        Some(T::TABLE_NAME)
    }
}

impl<T: TableSchema, Cols> QueryPhase for WithColumns<T, Cols> {
    open spec fn table() -> Option<&'static str> {
        Some(T::TABLE_NAME)
    }
}

/// A SELECT query under construction. `Phase` tracks which clauses may come
/// next, `S` whether it is sealed, `R` whether it runs, and `Row` the row type
/// a runner yields.
pub struct QueryBuilder<Phase: QueryPhase, S, R, Row = ()> {
    data: QueryInternData,
    _phase: PhantomData<Phase>,
    _seal: PhantomData<S>,
    _execute: PhantomData<R>,
    _row: PhantomData<Row>,
}

impl<Phase: QueryPhase, S, R, Row> View for QueryBuilder<Phase, S, R, Row> {
    type V = QueryInternData;

    closed spec fn view(&self) -> QueryInternData {
        self.data
    }
}

impl<Phase: QueryPhase, S, R, Row> QueryBuilder<Phase, S, R, Row> {
    /// A query names the table of its phase: none before `from`, then `T`.
    #[verifier::type_invariant]
    spec fn in_phase(self) -> bool {
        self.data.table == Phase::table()
    }

    fn with_data(data: QueryInternData) -> (q: Self)
        requires
            data.table == Phase::table(),
        ensures
            q@ == data,
    {
        QueryBuilder {
            data,
            _phase: PhantomData,
            _seal: PhantomData,
            _execute: PhantomData,
            _row: PhantomData,
        }
    }

    fn into_data(self) -> (d: QueryInternData)
        ensures
            d == self@,
            d.table == Phase::table(),
    {
        proof {
            use_type_invariant(&self);
        }
        self.data
    }
}

impl<Phase: QueryPhase, S> QueryBuilder<Phase, S, NotExecutable> {
    /// A copy of the builder, which renders the same SQL.
    pub fn clone(&self) -> (q: Self)
        ensures
            render::select_sql(q@) == render::select_sql(self@),
            render::copies(q@, self@),
    {
        proof {
            use_type_invariant(self);
        }
        Self::with_data(render::copy_query(&self.data))
    }
}

impl QueryBuilder<NoTable, NotSealed, NotExecutable> {
    pub fn new() -> (q: Self)
        ensures
            q@.is_blank(),
    {
        Self::with_data(QueryInternData::blank())
    }
}

impl<R, Row> QueryBuilder<NoTable, NotSealed, R, Row> {
    /// Selects from table `T`.
    pub fn from<T: TableSchema>(self) -> (q: QueryBuilder<WithTable<T>, NotSealed, R, Row>)
        ensures
            q@ == (QueryInternData { table: Some(T::TABLE_NAME), ..self@ }),
    {
        let data = self.into_data();
        QueryBuilder::with_data(QueryInternData { table: Some(T::TABLE_NAME), ..data })
    }

    /// Selects from a subquery, aliased as table `T`.
    pub fn from_subquery<T: TableSchema>(self, sql: impl SubquerySql) -> (q: QueryBuilder<
        WithTable<T>,
        NotSealed,
        R,
        Row,
    >)
        ensures
            q@ == (QueryInternData {
                table: Some(T::TABLE_NAME),
                subquery_source: q@.subquery_source,
                ..self@
            }),
            q@.subquery_source matches Some(b) && render::subquery_sql(b) == sql.subquery_text(),
    {
        let data = self.into_data();
        let body = sql.into_subquery_data();
        QueryBuilder::with_data(
            QueryInternData { table: Some(T::TABLE_NAME), subquery_source: Some(body), ..data },
        )
    }
}

impl<T: TableSchema, R, Row> QueryBuilder<WithTable<T>, NotSealed, R, Row> {
    pub fn seal(self) -> (q: Self)
        ensures
            q@ == self@,
    {
        self
    }

    /// Selects the columns `Cols`.
    pub fn select<Cols: ColumnSet<T>>(self) -> (q: QueryBuilder<
        WithColumns<T, Cols>,
        NotSealed,
        R,
        Row,
    >)
        ensures
            q@ == (QueryInternData { columns: q@.columns, ..self@ }),
            q@.columns@ == Cols::column_list(),
    {
        let data = self.into_data();
        QueryBuilder::with_data(QueryInternData { columns: Cols::column_exprs(), ..data })
    }

    /// Selects every column: `SELECT *`.
    pub fn select_all(self) -> (q: QueryBuilder<WithColumns<T, AllColumns>, NotSealed, R, Row>)
        ensures
            q@ == (QueryInternData { columns: q@.columns, ..self@ }),
            q@.columns@ == seq![ColumnExpr::All],
    {
        let data = self.into_data();
        QueryBuilder::with_data(QueryInternData { columns: vec![ColumnExpr::All], ..data })
    }
}

impl<T: TableSchema, C: BelongsTo<T>, S, R, Row> QueryBuilder<WithColumns<T, (C,)>, S, R, Row> {
    /// The one-column query as a subquery that yields `C`'s value type.
    pub fn into_subquery(self) -> (sq: Subquery<<C as BelongsTo<T>>::Value>)
        ensures
            sq.query() == self@,
            sq.query().table == Some(T::TABLE_NAME),
    {
        Subquery::new(self.into_data())
    }
}

impl<T: TableSchema, Cols, R, Row> QueryBuilder<WithColumns<T, Cols>, NotSealed, R, Row> {
    /// Adds `GROUP BY col`, after any earlier ones.
    pub fn group_by<C: BelongsTo<T>>(self) -> (q: Self)
        ensures
            q@ == (QueryInternData { group_by: q@.group_by, ..self@ }),
            q@.group_by@ == self@.group_by@.push(C::COLUMN_NAME),
    {
        let mut data = self.into_data();
        data.group_by.push(C::COLUMN_NAME);
        Self::with_data(data)
    }

    /// Adds a HAVING condition; several are joined by `AND`.
    pub fn having(self, clause: WhereClause<T, HasCondition>) -> (q: Self)
        ensures
            q@ == (QueryInternData { having: q@.having, ..self@ }),
            q@.having@.len() == self@.having@.len() + 1,
            q@.having@.drop_last() == self@.having@,
            q@.having@.last()@ == clause@,
            alternates(q@.having@.last()@),
            q@.having@.last()@.len() % 2 == 1,
    {
        let mut data = self.into_data();
        data.having.push(clause.into_fragments());
        Self::with_data(data)
    }

    /// Orders by `col`; a later call replaces an earlier one.
    pub fn order_by<C: BelongsTo<T>>(self, dir: Direction) -> (q: Self)
        ensures
            q@ == (QueryInternData { order_by: Some((C::COLUMN_NAME, dir)), ..self@ }),
    {
        let data = self.into_data();
        Self::with_data(QueryInternData { order_by: Some((C::COLUMN_NAME, dir)), ..data })
    }

    /// `LIMIT n`; a later call replaces an earlier one.
    pub fn limit(self, n: usize) -> (q: Self)
        ensures
            q@ == (QueryInternData { limit: Some(n), ..self@ }),
    {
        let data = self.into_data();
        Self::with_data(QueryInternData { limit: Some(n), ..data })
    }

    /// `OFFSET n`; a later call replaces an earlier one.
    pub fn offset(self, n: usize) -> (q: Self)
        ensures
            q@ == (QueryInternData { offset: Some(n), ..self@ }),
    {
        let data = self.into_data();
        Self::with_data(QueryInternData { offset: Some(n), ..data })
    }

    /// Adds a WHERE condition; several are joined by `AND`, each in parentheses.
    pub fn where_clause(self, clause: WhereClause<T, HasCondition>) -> (q: Self)
        ensures
            q@ == (QueryInternData { conditions: q@.conditions, ..self@ }),
            q@.conditions@.len() == self@.conditions@.len() + 1,
            q@.conditions@.drop_last() == self@.conditions@,
            q@.conditions@.last()@ == clause@,
            alternates(q@.conditions@.last()@),
            q@.conditions@.last()@.len() % 2 == 1,
    {
        let mut data = self.into_data();
        data.conditions.push(clause.into_fragments());
        Self::with_data(data)
    }

    /// `INNER JOIN b ON t.fk = b.pk`, where `FK` is a foreign key of `T` to `B`.
    pub fn join<B, FK>(self) -> (q: Self) where B: TableSchema, FK: ForeignKey<T, References = B>
        ensures
            q@ == (QueryInternData { joins: q@.joins, ..self@ }),
            q@.joins@.drop_last() == self@.joins@,
            q@.joins@.len() == self@.joins@.len() + 1,
            q@.joins@.last().describes(
                JoinType::Inner,
                T::TABLE_NAME@,
                B::TABLE_NAME@,
                FK::COLUMN_NAME@,
                FK::RefColumn::COLUMN_NAME@,
            ),
    {
        let mut data = self.into_data();
        data.joins.push(
            JoinClause::new(
                JoinType::Inner,
                T::TABLE_NAME,
                B::TABLE_NAME,
                FK::COLUMN_NAME,
                FK::RefColumn::COLUMN_NAME,
            ),
        );
        Self::with_data(data)
    }

    /// `LEFT JOIN b ON t.fk = b.pk`, where `FK` is a foreign key of `T` to `B`.
    pub fn left_join<B, FK>(self) -> (q: Self) where
        B: TableSchema,
        FK: ForeignKey<T, References = B>,

        ensures
            q@ == (QueryInternData { joins: q@.joins, ..self@ }),
            q@.joins@.drop_last() == self@.joins@,
            q@.joins@.len() == self@.joins@.len() + 1,
            q@.joins@.last().describes(
                JoinType::Left,
                T::TABLE_NAME@,
                B::TABLE_NAME@,
                FK::COLUMN_NAME@,
                FK::RefColumn::COLUMN_NAME@,
            ),
    {
        let mut data = self.into_data();
        data.joins.push(
            JoinClause::new(
                JoinType::Left,
                T::TABLE_NAME,
                B::TABLE_NAME,
                FK::COLUMN_NAME,
                FK::RefColumn::COLUMN_NAME,
            ),
        );
        Self::with_data(data)
    }

    /// The SELECT statement.
    pub fn build(&self) -> (sql: String)
        ensures
            sql@ == render::select_sql(self@),
            self@.table == Some(T::TABLE_NAME),
    {
        proof {
            use_type_invariant(self);
        }
        render::build_select(&self.data)
    }

    /// Hands the query to `runner` to run.
    pub fn execute<Rn: Runner<Row>>(self, runner: &mut Rn) -> (r: Result<(), Rn::Error>)
        ensures
            old(runner).handed(&*final(runner), render::select_sql(self@)),
            old(runner).answers_done(&*final(runner), render::select_sql(self@), r),
    {
        runner.execute(QueryData(self.into_data()))
    }

    /// Hands the query to `runner`, for every row.
    pub fn execute_all<Rn: Runner<Row>>(self, runner: &mut Rn) -> (r: Result<Vec<Row>, Rn::Error>)
        ensures
            old(runner).handed(&*final(runner), render::select_sql(self@)),
            old(runner).answers_rows(&*final(runner), render::select_sql(self@), r),
    {
        runner.execute_all(QueryData(self.into_data()))
    }

    /// Hands the query to `runner`, for exactly one row.
    pub fn execute_one<Rn: Runner<Row>>(self, runner: &mut Rn) -> (r: Result<Row, Rn::Error>)
        ensures
            old(runner).handed(&*final(runner), render::select_sql(self@)),
            old(runner).answers_row(&*final(runner), render::select_sql(self@), r),
    {
        runner.execute_one(QueryData(self.into_data()))
    }

    /// Hands the query to `runner`, for at most one row.
    pub fn execute_maybe_one<Rn: Runner<Row>>(self, runner: &mut Rn) -> (r: Result<
        Option<Row>,
        Rn::Error,
    >)
        ensures
            old(runner).handed(&*final(runner), render::select_sql(self@)),
            old(runner).answers_maybe_row(&*final(runner), render::select_sql(self@), r),
    {
        runner.execute_maybe_one(QueryData(self.into_data()))
    }
}

impl<T: TableSchema, Cols, S, R, Row> SubquerySql for QueryBuilder<WithColumns<T, Cols>, S, R, Row> {
    open spec fn subquery_text(&self) -> Seq<char> {
        render::select_sql(self@)
    }

    fn into_subquery_data(self) -> (body: SubqueryBody) {
        SubqueryBody::Query(Box::new(self.into_data()))
    }
}

} // verus!
