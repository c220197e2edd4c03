//! The INSERT statement builder.
use std::marker::PhantomData;
use vstd::prelude::*;

use crate::condition::{IntoValue, Value};
use crate::execute::{InsertData, Runner};
use crate::{BelongsTo, NoTable, TableSchema, WithTable};

verus! {

/// What an INSERT statement is rendered from.
pub struct InsertBuilderData {
    pub table: Option<&'static str>,
    pub columns: Vec<&'static str>,
    pub values: Vec<Value>,
}

/// Phase of an INSERT into `T` with at least one value.
pub struct WithValues<T>(PhantomData<T>);

/// A phase of an INSERT, by what a statement in it holds.
pub trait InsertPhase {
    spec fn holds(data: InsertBuilderData) -> bool;
}

impl InsertPhase for NoTable {
    open spec fn holds(data: InsertBuilderData) -> bool {
        &&& data.table is None
        &&& data.columns@.len() == 0
        &&& data.values@.len() == 0
    }
}

impl<T: TableSchema> InsertPhase for WithTable<T> {
    open spec fn holds(data: InsertBuilderData) -> bool {
        &&& data.table == Some(T::TABLE_NAME)
        &&& data.columns@.len() == 0
        &&& data.values@.len() == 0
    }
}

impl<T: TableSchema> InsertPhase for WithValues<T> {
    open spec fn holds(data: InsertBuilderData) -> bool {
        &&& data.table == Some(T::TABLE_NAME)
        &&& data.columns@.len() == data.values@.len()
        &&& data.columns@.len() > 0
    }
}

/// An INSERT statement under construction: its phase tells how far it got.
pub struct InsertBuilder<Phase: InsertPhase> {
    data: InsertBuilderData,
    _phase: PhantomData<Phase>,
}

impl<Phase: InsertPhase> View for InsertBuilder<Phase> {
    type V = InsertBuilderData;

    closed spec fn view(&self) -> InsertBuilderData {
        self.data
    }
}

impl<Phase: InsertPhase> InsertBuilder<Phase> {
    #[verifier::type_invariant]
    spec fn in_phase(self) -> bool {
        Phase::holds(self.data)
    }
}

impl Default for InsertBuilder<NoTable> {
    fn default() -> (b: Self)
        ensures
            b@.table is None,
            b@.columns@.len() == 0,
            b@.values@.len() == 0,
    {
        Self::new()
    }
}

impl InsertBuilder<NoTable> {
    pub fn new() -> (b: Self)
        ensures
            b@.table is None,
            b@.columns@.len() == 0,
            b@.values@.len() == 0,
    {
        Self {
            data: InsertBuilderData { table: None, columns: Vec::new(), values: Vec::new() },
            _phase: PhantomData,
        }
    }

    /// Inserts into table `T`.
    pub fn into_table<T: TableSchema>(self) -> (b: InsertBuilder<WithTable<T>>)
        ensures
            b@ == (InsertBuilderData { table: Some(T::TABLE_NAME), ..self@ }),
            b@.columns@.len() == 0,
            b@.values@.len() == 0,
    {
        proof {
            use_type_invariant(&self);
        }
        InsertBuilder {
            data: InsertBuilderData { table: Some(T::TABLE_NAME), ..self.data },
            _phase: PhantomData,
        }
    }
}

impl<T: TableSchema> InsertBuilder<WithTable<T>> {
    /// The first value: column `C` gets `val`.
    pub fn value<C, V>(self, val: V) -> (b: InsertBuilder<WithValues<T>>) where
        C: BelongsTo<T>,
        V: IntoValue,

        ensures
            b@.table == self@.table,
            b@.columns@ == self@.columns@.push(C::COLUMN_NAME),
            b@.values@.len() == self@.values@.len() + 1,
            b@.values@.drop_last() == self@.values@,
            b@.values@.last()@ == val.value_view(),
            b@.columns@.len() == b@.values@.len(),
    {
        proof {
            use_type_invariant(&self);
        }
        let mut data = self.data;
        data.columns.push(C::COLUMN_NAME);
        data.values.push(val.into_value());
        InsertBuilder { data, _phase: PhantomData }
    }
}

impl<T: TableSchema> InsertBuilder<WithValues<T>> {
    /// One more value: column `C` gets `val`.
    pub fn value<C, V>(self, val: V) -> (b: Self) where C: BelongsTo<T>, V: IntoValue
        ensures
            b@.table == self@.table,
            b@.columns@ == self@.columns@.push(C::COLUMN_NAME),
            b@.values@.len() == self@.values@.len() + 1,
            b@.values@.drop_last() == self@.values@,
            b@.values@.last()@ == val.value_view(),
            b@.columns@.len() == b@.values@.len(),
    {
        proof {
            use_type_invariant(&self);
        }
        let mut data = self.data;
        data.columns.push(C::COLUMN_NAME);
        data.values.push(val.into_value());
        InsertBuilder { data, _phase: PhantomData }
    }

    pub(crate) fn into_data(self) -> (d: InsertData)
        ensures
            d.table == T::TABLE_NAME,
            self@.table == Some(T::TABLE_NAME),
            d.columns == self@.columns,
            d.values == self@.values,
    {
        proof {
            use_type_invariant(&self);
        }
        InsertData {
            table: self.data.table.unwrap(),
            columns: self.data.columns,
            values: self.data.values,
        }
    }

    /// Hands the statement to `runner`.
    pub fn execute<Rn: Runner<()>>(self, runner: &mut Rn) -> (r: Result<(), Rn::Error>)
        ensures
            old(runner).handed(
                &*final(runner),
                crate::render::insert_sql(
                    (InsertData {
                        table: T::TABLE_NAME,
                        columns: self@.columns,
                        values: self@.values,
                    }),
                ),
            ),
            old(runner).answers_done(
                &*final(runner),
                crate::render::insert_sql(
                    (InsertData {
                        table: T::TABLE_NAME,
                        columns: self@.columns,
                        values: self@.values,
                    }),
                ),
                r,
            ),
    {
        runner.insert(self.into_data())
    }
}

} // verus!
