//! The UPDATE statement builder.
use std::marker::PhantomData;
use vstd::prelude::*;

use crate::condition::{alternates, ConditionAtom, HasCondition, IntoValue, Value, WhereClause};
use crate::execute::{Runner, UpdateData};
use crate::select::NullableColumn;
use crate::{BelongsTo, NoTable, TableSchema, WithTable};

verus! {

/// What an UPDATE statement is rendered from; `None` assigns NULL.
pub struct UpdateBuilderData {
    pub table: Option<&'static str>,
    pub assignments: Vec<(&'static str, Option<Value>)>,
    pub conditions: Vec<Vec<ConditionAtom>>,
}

/// Phase of an UPDATE of `T` with at least one assignment.
pub struct WithSet<T>(PhantomData<T>);

/// A phase of an UPDATE, by what a statement in it holds.
pub trait UpdatePhase {
    spec fn holds(data: UpdateBuilderData) -> bool;
}

impl UpdatePhase for NoTable {
    open spec fn holds(data: UpdateBuilderData) -> bool {
        &&& data.table is None
        &&& data.assignments@.len() == 0
        &&& data.conditions@.len() == 0
    }
}

impl<T: TableSchema> UpdatePhase for WithTable<T> {
    open spec fn holds(data: UpdateBuilderData) -> bool {
        &&& data.table == Some(T::TABLE_NAME)
        &&& data.assignments@.len() == 0
        &&& data.conditions@.len() == 0
    }
}

impl<T: TableSchema> UpdatePhase for WithSet<T> {
    open spec fn holds(data: UpdateBuilderData) -> bool {
        &&& data.table == Some(T::TABLE_NAME)
        &&& data.assignments@.len() > 0
    }
}

/// An UPDATE statement under construction: its phase tells how far it got.
pub struct UpdateBuilder<Phase: UpdatePhase> {
    data: UpdateBuilderData,
    _phase: PhantomData<Phase>,
}

impl<Phase: UpdatePhase> UpdateBuilder<Phase> {
    #[verifier::type_invariant]
    spec fn in_phase(self) -> bool {
        Phase::holds(self.data)
    }
}

impl<Phase: UpdatePhase> View for UpdateBuilder<Phase> {
    type V = UpdateBuilderData;

    closed spec fn view(&self) -> UpdateBuilderData {
        self.data
    }
}

impl Default for UpdateBuilder<NoTable> {
    fn default() -> (b: Self)
        ensures
            b@.table is None,
            b@.assignments@.len() == 0,
            b@.conditions@.len() == 0,
    {
        Self::new()
    }
}

impl UpdateBuilder<NoTable> {
    pub fn new() -> (b: Self)
        ensures
            b@.table is None,
            b@.assignments@.len() == 0,
            b@.conditions@.len() == 0,
    {
        Self {
            data: UpdateBuilderData {
                table: None,
                assignments: Vec::new(),
                conditions: Vec::new(),
            },
            _phase: PhantomData,
        }
    }

    /// Updates table `T`.
    pub fn table<T: TableSchema>(self) -> (b: UpdateBuilder<WithTable<T>>)
        ensures
            b@ == (UpdateBuilderData { table: Some(T::TABLE_NAME), ..self@ }),
    {
        proof {
            use_type_invariant(&self);
        }
        UpdateBuilder {
            data: UpdateBuilderData { table: Some(T::TABLE_NAME), ..self.data },
            _phase: PhantomData,
        }
    }
}

impl<T: TableSchema> UpdateBuilder<WithTable<T>> {
    /// The first assignment: `col = val`.
    pub fn set<C, V>(self, val: V) -> (b: UpdateBuilder<WithSet<T>>) where
        C: BelongsTo<T>,
        V: IntoValue,

        ensures
            b@ == (UpdateBuilderData { assignments: b@.assignments, ..self@ }),
            b@.assignments@.len() == self@.assignments@.len() + 1,
            b@.assignments@.drop_last() == self@.assignments@,
            b@.assignments@.last().0 == C::COLUMN_NAME,
            b@.assignments@.last().1 matches Some(v) && v@ == val.value_view(),
    {
        proof {
            use_type_invariant(&self);
        }
        let mut data = self.data;
        data.assignments.push((C::COLUMN_NAME, Some(val.into_value())));
        UpdateBuilder { data, _phase: PhantomData }
    }
}

impl<T: TableSchema> UpdateBuilder<WithSet<T>> {
    /// One more assignment: `col = val`.
    pub fn set<C, V>(self, val: V) -> (b: Self) where C: BelongsTo<T>, V: IntoValue
        ensures
            b@ == (UpdateBuilderData { assignments: b@.assignments, ..self@ }),
            b@.assignments@.len() == self@.assignments@.len() + 1,
            b@.assignments@.drop_last() == self@.assignments@,
            b@.assignments@.last().0 == C::COLUMN_NAME,
            b@.assignments@.last().1 matches Some(v) && v@ == val.value_view(),
    {
        proof {
            use_type_invariant(&self);
        }
        let mut data = self.data;
        data.assignments.push((C::COLUMN_NAME, Some(val.into_value())));
        UpdateBuilder { data, _phase: PhantomData }
    }

    /// `col = NULL`, on a nullable column only.
    pub fn set_null<C>(self) -> (b: Self) where C: NullableColumn<T>
        ensures
            b@ == (UpdateBuilderData { assignments: b@.assignments, ..self@ }),
            b@.assignments@ == self@.assignments@.push((C::COLUMN_NAME, None)),
    {
        proof {
            use_type_invariant(&self);
        }
        let mut data = self.data;
        data.assignments.push((C::COLUMN_NAME, None));
        UpdateBuilder { data, _phase: PhantomData }
    }

    /// Adds a WHERE condition; several are joined by `AND`, each in parentheses.
    pub fn where_clause(self, clause: WhereClause<T, HasCondition>) -> (b: Self)
        ensures
            b@ == (UpdateBuilderData { conditions: b@.conditions, ..self@ }),
            b@.conditions@.len() == self@.conditions@.len() + 1,
            b@.conditions@.drop_last() == self@.conditions@,
            b@.conditions@.last()@ == clause@,
            alternates(b@.conditions@.last()@),
            b@.conditions@.last()@.len() % 2 == 1,
    {
        proof {
            use_type_invariant(&self);
        }
        let mut data = self.data;
        data.conditions.push(clause.into_fragments());
        UpdateBuilder { data, _phase: PhantomData }
    }

    pub(crate) fn into_data(self) -> (d: UpdateData)
        ensures
            d.table == T::TABLE_NAME,
            self@.table == Some(T::TABLE_NAME),
            d.assignments == self@.assignments,
            d.conditions == self@.conditions,
    {
        proof {
            use_type_invariant(&self);
        }
        UpdateData {
            table: self.data.table.unwrap(),
            assignments: self.data.assignments,
            conditions: self.data.conditions,
        }
    }

    /// Hands the statement to `runner`.
    pub fn execute<Rn: Runner<()>>(self, runner: &mut Rn) -> (r: Result<(), Rn::Error>)
        ensures
            old(runner).handed(
                &*final(runner),
                crate::render::update_sql(
                    (UpdateData {
                        table: T::TABLE_NAME,
                        assignments: self@.assignments,
                        conditions: self@.conditions,
                    }),
                ),
            ),
            old(runner).answers_done(
                &*final(runner),
                crate::render::update_sql(
                    (UpdateData {
                        table: T::TABLE_NAME,
                        assignments: self@.assignments,
                        conditions: self@.conditions,
                    }),
                ),
                r,
            ),
    {
        runner.update(self.into_data())
    }
}

} // verus!
