//! What a runner receives, and the `Runner` trait that runs it.
use vstd::prelude::*;

use crate::condition::{ConditionAtom, Value};
use crate::query::QueryInternData;
use crate::render::{delete_sql, insert_sql, select_sql, update_sql};

verus! {

/// Marks a query builder that carries no runner of its own.
#[derive(Clone)]
pub struct NotExecutable;

/// A SELECT query handed to a runner.
pub struct QueryData(pub QueryInternData);

/// An INSERT statement handed to a runner.
pub struct InsertData {
    pub table: &'static str,
    pub columns: Vec<&'static str>,
    pub values: Vec<Value>,
}

/// An UPDATE statement handed to a runner; `None` assigns NULL.
pub struct UpdateData {
    pub table: &'static str,
    pub assignments: Vec<(&'static str, Option<Value>)>,
    pub conditions: Vec<Vec<ConditionAtom>>,
}

/// A DELETE statement handed to a runner.
pub struct DeleteData {
    pub table: &'static str,
    pub conditions: Vec<Vec<ConditionAtom>>,
}

/// Runs statements against a database, yielding rows of type `T`.
///
/// Each method hands the runner one statement and returns the runner's
/// answer. What the runner does with the statement, and what it answers, is
/// its own affair: `handed` and the `answers_*` relations are how a runner
/// states them, and a runner that states nothing keeps the defaults, which
/// hold of every state and every answer.
pub trait Runner<T> {
    /// What a failed run reports.
    type Error;

    /// Whether `after` is this runner once it has been handed the statement
    /// whose SQL text is `sql`.
    open spec fn handed(&self, after: &Self, sql: Seq<char>) -> bool {
        true
    }

    /// Whether `r` is what this runner answers, becoming `after`, to a
    /// statement `sql` that returns no rows.
    open spec fn answers_done(&self, after: &Self, sql: Seq<char>, r: Result<(), Self::Error>) -> bool {
        true
    }

    /// Whether `r` is what this runner answers, becoming `after`, to the query
    /// `sql` asked for all its rows.
    open spec fn answers_rows(
        &self,
        after: &Self,
        sql: Seq<char>,
        r: Result<Vec<T>, Self::Error>,
    ) -> bool {
        true
    }

    /// Whether `r` is what this runner answers, becoming `after`, to the query
    /// `sql` asked for exactly one row.
    open spec fn answers_row(&self, after: &Self, sql: Seq<char>, r: Result<T, Self::Error>) -> bool {
        true
    }

    /// Whether `r` is what this runner answers, becoming `after`, to the query
    /// `sql` asked for at most one row.
    open spec fn answers_maybe_row(
        &self,
        after: &Self,
        sql: Seq<char>,
        r: Result<Option<T>, Self::Error>,
    ) -> bool {
        true
    }

    fn execute(&mut self, data: QueryData) -> (r: Result<(), Self::Error>)
        ensures
            old(self).handed(&*final(self), select_sql(data.0)),
            old(self).answers_done(&*final(self), select_sql(data.0), r),
    ;

    fn execute_all(&mut self, data: QueryData) -> (r: Result<Vec<T>, Self::Error>)
        ensures
            old(self).handed(&*final(self), select_sql(data.0)),
            old(self).answers_rows(&*final(self), select_sql(data.0), r),
    ;

    fn execute_one(&mut self, data: QueryData) -> (r: Result<T, Self::Error>)
        ensures
            old(self).handed(&*final(self), select_sql(data.0)),
            old(self).answers_row(&*final(self), select_sql(data.0), r),
    ;

    fn execute_maybe_one(&mut self, data: QueryData) -> (r: Result<Option<T>, Self::Error>)
        ensures
            old(self).handed(&*final(self), select_sql(data.0)),
            old(self).answers_maybe_row(&*final(self), select_sql(data.0), r),
    ;

    fn insert(&mut self, data: InsertData) -> (r: Result<(), Self::Error>)
        ensures
            old(self).handed(&*final(self), insert_sql(data)),
            old(self).answers_done(&*final(self), insert_sql(data), r),
    ;

    fn update(&mut self, data: UpdateData) -> (r: Result<(), Self::Error>)
        ensures
            old(self).handed(&*final(self), update_sql(data)),
            old(self).answers_done(&*final(self), update_sql(data), r),
    ;

    fn delete(&mut self, data: DeleteData) -> (r: Result<(), Self::Error>)
        ensures
            old(self).handed(&*final(self), delete_sql(data)),
            old(self).answers_done(&*final(self), delete_sql(data), r),
    ;
}

} // verus!
