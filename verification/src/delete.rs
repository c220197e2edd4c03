//! The DELETE statement builder.
use std::marker::PhantomData;
use vstd::prelude::*;

use crate::condition::{alternates, ConditionAtom, HasCondition, WhereClause};
use crate::execute::{DeleteData, Runner};
use crate::{NoTable, TableSchema, WithTable};

verus! {

/// What a DELETE statement is rendered from.
pub struct DeleteBuilderData {
    pub table: Option<&'static str>,
    pub conditions: Vec<Vec<ConditionAtom>>,
}

/// A phase of a DELETE, by what a statement in it holds.
pub trait DeletePhase {
    spec fn holds(data: DeleteBuilderData) -> bool;
}

impl DeletePhase for NoTable {
    open spec fn holds(data: DeleteBuilderData) -> bool {
        data.table is None && data.conditions@.len() == 0
    }
}

impl<T: TableSchema> DeletePhase for WithTable<T> {
    open spec fn holds(data: DeleteBuilderData) -> bool {
        data.table == Some(T::TABLE_NAME)
    }
}

/// A DELETE statement under construction: its phase tells how far it got.
pub struct DeleteBuilder<Phase: DeletePhase> {
    data: DeleteBuilderData,
    _phase: PhantomData<Phase>,
}

impl<Phase: DeletePhase> DeleteBuilder<Phase> {
    #[verifier::type_invariant]
    spec fn in_phase(self) -> bool {
        Phase::holds(self.data)
    }
}

impl<Phase: DeletePhase> View for DeleteBuilder<Phase> {
    type V = DeleteBuilderData;

    closed spec fn view(&self) -> DeleteBuilderData {
        self.data
    }
}

impl Default for DeleteBuilder<NoTable> {
    fn default() -> (b: Self)
        ensures
            b@.table is None,
            b@.conditions@.len() == 0,
    {
        Self::new()
    }
}

impl DeleteBuilder<NoTable> {
    pub fn new() -> (b: Self)
        ensures
            b@.table is None,
            b@.conditions@.len() == 0,
    {
        Self { data: DeleteBuilderData { table: None, conditions: Vec::new() }, _phase: PhantomData }
    }

    /// Deletes from table `T`.
    pub fn from<T: TableSchema>(self) -> (b: DeleteBuilder<WithTable<T>>)
        ensures
            b@ == (DeleteBuilderData { table: Some(T::TABLE_NAME), ..self@ }),
    {
        proof {
            use_type_invariant(&self);
        }
        DeleteBuilder {
            data: DeleteBuilderData { table: Some(T::TABLE_NAME), ..self.data },
            _phase: PhantomData,
        }
    }
}

impl<T: TableSchema> DeleteBuilder<WithTable<T>> {
    /// Adds a WHERE condition; several are joined by `AND`, each in parentheses.
    pub fn where_clause(self, clause: WhereClause<T, HasCondition>) -> (b: Self)
        ensures
            b@ == (DeleteBuilderData { conditions: b@.conditions, ..self@ }),
            b@.conditions@.len() == self@.conditions@.len() + 1,
            b@.conditions@.drop_last() == self@.conditions@,
            b@.conditions@.last()@ == clause@,
            alternates(b@.conditions@.last()@),
            b@.conditions@.last()@.len() % 2 == 1,
    {
        proof {
            use_type_invariant(&self);
        }
        let mut data = self.data;
        data.conditions.push(clause.into_fragments());
        DeleteBuilder { data, _phase: PhantomData }
    }

    pub(crate) fn into_data(self) -> (d: DeleteData)
        ensures
            d.table == T::TABLE_NAME,
            self@.table == Some(T::TABLE_NAME),
            d.conditions == self@.conditions,
    {
        proof {
            use_type_invariant(&self);
        }
        DeleteData { table: self.data.table.unwrap(), conditions: self.data.conditions }
    }

    /// Hands the statement to `runner`.
    pub fn execute<Rn: Runner<()>>(self, runner: &mut Rn) -> (r: Result<(), Rn::Error>)
        ensures
            old(runner).handed(
                &*final(runner),
                crate::render::delete_sql(
                    (DeleteData {
                        table: T::TABLE_NAME,
                        conditions: self@.conditions,
                    }),
                ),
            ),
            old(runner).answers_done(
                &*final(runner),
                crate::render::delete_sql(
                    (DeleteData {
                        table: T::TABLE_NAME,
                        conditions: self@.conditions,
                    }),
                ),
                r,
            ),
    {
        runner.delete(self.into_data())
    }
}

} // verus!
