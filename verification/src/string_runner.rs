//! A runner that runs nothing: it renders each statement and keeps the text.
use vstd::prelude::*;

use crate::execute::{DeleteData, InsertData, QueryData, Runner, UpdateData};
use crate::render::{build_delete, build_insert, build_select, build_update};

verus! {

/// Keeps the text of the last statement handed to it.
pub struct StringRunner {
    query: Option<String>,
}

impl View for StringRunner {
    /// The text of the last statement handed over, if any.
    type V = Option<Seq<char>>;

    closed spec fn view(&self) -> Option<Seq<char>> {
        match self.query {
            Some(s) => Some(s@),
            None => None,
        }
    }
}

impl Default for StringRunner {
    fn default() -> (r: Self)
        ensures
            r@ is None,
    {
        Self::new()
    }
}

impl StringRunner {
    /// A runner that holds no statement yet.
    pub fn new() -> (r: Self)
        ensures
            r@ is None,
    {
        Self { query: None }
    }

    /// The text of the last statement handed to the runner, if any.
    pub fn query(&self) -> (q: Option<String>)
        ensures
            match q {
                Some(s) => self@ == Some(s@),
                None => self@ is None,
            },
    {
        match &self.query {
            Some(s) => Some(s.clone()),
            None => None,
        }
    }

    fn set(&mut self, sql: String)
        ensures
            final(self)@ == Some(sql@),
    {
        self.query = Some(sql);
    }
}

impl Runner<()> for StringRunner {
    type Error = ();

    /// The runner holds exactly the text it was last handed.
    open spec fn handed(&self, after: &Self, sql: Seq<char>) -> bool {
        after@ == Some(sql)
    }

    /// Every statement succeeds.
    open spec fn answers_done(&self, after: &Self, sql: Seq<char>, r: Result<(), ()>) -> bool {
        r is Ok
    }

    /// A query yields no rows.
    open spec fn answers_rows(&self, after: &Self, sql: Seq<char>, r: Result<Vec<()>, ()>) -> bool {
        r matches Ok(rows) && rows@.len() == 0
    }

    /// A query for one row yields the unit row.
    open spec fn answers_row(&self, after: &Self, sql: Seq<char>, r: Result<(), ()>) -> bool {
        r is Ok
    }

    /// A query for at most one row yields none.
    open spec fn answers_maybe_row(
        &self,
        after: &Self,
        sql: Seq<char>,
        r: Result<Option<()>, ()>,
    ) -> bool {
        r == Ok::<Option<()>, ()>(None)
    }

    fn execute(&mut self, data: QueryData) -> (r: Result<(), ()>)
        ensures
            r is Ok,
    {
        self.set(build_select(&data.0));
        Ok(())
    }

    fn execute_all(&mut self, data: QueryData) -> (r: Result<Vec<()>, ()>)
        ensures
            r matches Ok(rows) && rows@.len() == 0,
    {
        self.set(build_select(&data.0));
        Ok(Vec::new())
    }

    fn execute_one(&mut self, data: QueryData) -> (r: Result<(), ()>)
        ensures
            r is Ok,
    {
        self.set(build_select(&data.0));
        Ok(())
    }

    fn execute_maybe_one(&mut self, data: QueryData) -> (r: Result<Option<()>, ()>)
        ensures
            r == Ok::<Option<()>, ()>(None),
    {
        self.set(build_select(&data.0));
        Ok(None)
    }

    fn insert(&mut self, data: InsertData) -> (r: Result<(), ()>)
        ensures
            r is Ok,
    {
        self.set(build_insert(&data));
        Ok(())
    }

    fn update(&mut self, data: UpdateData) -> (r: Result<(), ()>)
        ensures
            r is Ok,
    {
        self.set(build_update(&data));
        Ok(())
    }

    fn delete(&mut self, data: DeleteData) -> (r: Result<(), ()>)
        ensures
            r is Ok,
    {
        self.set(build_delete(&data));
        Ok(())
    }
}

} // verus!
