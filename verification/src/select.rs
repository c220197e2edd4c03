//! Column selection: select lists, aggregates and nullability markers.
use std::marker::PhantomData;
use vstd::prelude::*;

use crate::{BelongsTo, ColumnExpr, TableSchema};

verus! {

// ── Nullability markers ───────────────────────────────────────────────────────

/// Marks a column that is never NULL.
pub struct NotNull;

/// Marks a column that may be NULL.
pub struct Nullable;

// ── SelectExpr ────────────────────────────────────────────────────────────────

/// Something that may stand in the select list of a query on `T`.
pub trait SelectExpr<T: TableSchema> {
    /// The entry it stands for.
    spec fn select_entry() -> ColumnExpr;

    fn column_expr() -> (e: ColumnExpr)
        ensures
            e == Self::select_entry(),
    ;
}

// ── Aggregate types ───────────────────────────────────────────────────────────

/// `COUNT(*)`
pub struct Count;

impl<T: TableSchema> SelectExpr<T> for Count {
    open spec fn select_entry() -> ColumnExpr {
        ColumnExpr::Count
    }

    fn column_expr() -> (e: ColumnExpr) {
        ColumnExpr::Count
    }
}

/// `MAX(t.c)`
pub struct Max<C>(PhantomData<C>);

impl<T: TableSchema, C: BelongsTo<T>> SelectExpr<T> for Max<C> {
    open spec fn select_entry() -> ColumnExpr {
        ColumnExpr::Max { table: T::TABLE_NAME, name: C::COLUMN_NAME }
    }

    fn column_expr() -> (e: ColumnExpr) {
        ColumnExpr::Max { table: T::TABLE_NAME, name: C::COLUMN_NAME }
    }
}

/// `MIN(t.c)`
pub struct Min<C>(PhantomData<C>);

impl<T: TableSchema, C: BelongsTo<T>> SelectExpr<T> for Min<C> {
    open spec fn select_entry() -> ColumnExpr {
        ColumnExpr::Min { table: T::TABLE_NAME, name: C::COLUMN_NAME }
    }

    fn column_expr() -> (e: ColumnExpr) {
        ColumnExpr::Min { table: T::TABLE_NAME, name: C::COLUMN_NAME }
    }
}

/// `SUM(t.c)`
pub struct Sum<C>(PhantomData<C>);

impl<T: TableSchema, C: BelongsTo<T>> SelectExpr<T> for Sum<C> {
    open spec fn select_entry() -> ColumnExpr {
        ColumnExpr::Sum { table: T::TABLE_NAME, name: C::COLUMN_NAME }
    }

    fn column_expr() -> (e: ColumnExpr) {
        ColumnExpr::Sum { table: T::TABLE_NAME, name: C::COLUMN_NAME }
    }
}

// ── ColumnSet ─────────────────────────────────────────────────────────────────

/// A tuple of select entries, taken in order.
pub trait ColumnSet<T: TableSchema> {
    /// The entries, in order.
    spec fn column_list() -> Seq<ColumnExpr>;

    fn column_exprs() -> (v: Vec<ColumnExpr>)
        ensures
            v@ == Self::column_list(),
    ;
}

impl<T, C1> ColumnSet<T> for (C1,) where
    T: TableSchema,
    C1: SelectExpr<T>,
 {
    open spec fn column_list() -> Seq<ColumnExpr> {
        seq![C1::select_entry()]
    }

    fn column_exprs() -> (v: Vec<ColumnExpr>) {
        vec![C1::column_expr()]
    }
}

impl<T, C1, C2> ColumnSet<T> for (C1, C2) where
    T: TableSchema,
    C1: SelectExpr<T>,
    C2: SelectExpr<T>,
 {
    open spec fn column_list() -> Seq<ColumnExpr> {
        seq![C1::select_entry(), C2::select_entry()]
    }

    fn column_exprs() -> (v: Vec<ColumnExpr>) {
        vec![C1::column_expr(), C2::column_expr()]
    }
}

impl<T, C1, C2, C3> ColumnSet<T> for (C1, C2, C3) where
    T: TableSchema,
    C1: SelectExpr<T>,
    C2: SelectExpr<T>,
    C3: SelectExpr<T>,
 {
    open spec fn column_list() -> Seq<ColumnExpr> {
        seq![C1::select_entry(), C2::select_entry(), C3::select_entry()]
    }

    fn column_exprs() -> (v: Vec<ColumnExpr>) {
        vec![C1::column_expr(), C2::column_expr(), C3::column_expr()]
    }
}

impl<T, C1, C2, C3, C4> ColumnSet<T> for (C1, C2, C3, C4) where
    T: TableSchema,
    C1: SelectExpr<T>,
    C2: SelectExpr<T>,
    C3: SelectExpr<T>,
    C4: SelectExpr<T>,
 {
    open spec fn column_list() -> Seq<ColumnExpr> {
        seq![C1::select_entry(), C2::select_entry(), C3::select_entry(), C4::select_entry()]
    }

    fn column_exprs() -> (v: Vec<ColumnExpr>) {
        vec![C1::column_expr(), C2::column_expr(), C3::column_expr(), C4::column_expr()]
    }
}

impl<T, C1, C2, C3, C4, C5> ColumnSet<T> for (C1, C2, C3, C4, C5) where
    T: TableSchema,
    C1: SelectExpr<T>,
    C2: SelectExpr<T>,
    C3: SelectExpr<T>,
    C4: SelectExpr<T>,
    C5: SelectExpr<T>,
 {
    open spec fn column_list() -> Seq<ColumnExpr> {
        seq![C1::select_entry(), C2::select_entry(), C3::select_entry(), C4::select_entry(), C5::select_entry()]
    }

    fn column_exprs() -> (v: Vec<ColumnExpr>) {
        vec![C1::column_expr(), C2::column_expr(), C3::column_expr(), C4::column_expr(), C5::column_expr()]
    }
}

impl<T, C1, C2, C3, C4, C5, C6> ColumnSet<T> for (C1, C2, C3, C4, C5, C6) where
    T: TableSchema,
    C1: SelectExpr<T>,
    C2: SelectExpr<T>,
    C3: SelectExpr<T>,
    C4: SelectExpr<T>,
    C5: SelectExpr<T>,
    C6: SelectExpr<T>,
 {
    open spec fn column_list() -> Seq<ColumnExpr> {
        seq![C1::select_entry(), C2::select_entry(), C3::select_entry(), C4::select_entry(), C5::select_entry(), C6::select_entry()]
    }

    fn column_exprs() -> (v: Vec<ColumnExpr>) {
        vec![C1::column_expr(), C2::column_expr(), C3::column_expr(), C4::column_expr(), C5::column_expr(), C6::column_expr()]
    }
}

impl<T, C1, C2, C3, C4, C5, C6, C7> ColumnSet<T> for (C1, C2, C3, C4, C5, C6, C7) where
    T: TableSchema,
    C1: SelectExpr<T>,
    C2: SelectExpr<T>,
    C3: SelectExpr<T>,
    C4: SelectExpr<T>,
    C5: SelectExpr<T>,
    C6: SelectExpr<T>,
    C7: SelectExpr<T>,
 {
    open spec fn column_list() -> Seq<ColumnExpr> {
        seq![C1::select_entry(), C2::select_entry(), C3::select_entry(), C4::select_entry(), C5::select_entry(), C6::select_entry(), C7::select_entry()]
    }

    fn column_exprs() -> (v: Vec<ColumnExpr>) {
        vec![C1::column_expr(), C2::column_expr(), C3::column_expr(), C4::column_expr(), C5::column_expr(), C6::column_expr(), C7::column_expr()]
    }
}

impl<T, C1, C2, C3, C4, C5, C6, C7, C8> ColumnSet<T> for (C1, C2, C3, C4, C5, C6, C7, C8) where
    T: TableSchema,
    C1: SelectExpr<T>,
    C2: SelectExpr<T>,
    C3: SelectExpr<T>,
    C4: SelectExpr<T>,
    C5: SelectExpr<T>,
    C6: SelectExpr<T>,
    C7: SelectExpr<T>,
    C8: SelectExpr<T>,
 {
    open spec fn column_list() -> Seq<ColumnExpr> {
        seq![C1::select_entry(), C2::select_entry(), C3::select_entry(), C4::select_entry(), C5::select_entry(), C6::select_entry(), C7::select_entry(), C8::select_entry()]
    }

    fn column_exprs() -> (v: Vec<ColumnExpr>) {
        vec![C1::column_expr(), C2::column_expr(), C3::column_expr(), C4::column_expr(), C5::column_expr(), C6::column_expr(), C7::column_expr(), C8::column_expr()]
    }
}

impl<T, C1, C2, C3, C4, C5, C6, C7, C8, C9> ColumnSet<T> for (C1, C2, C3, C4, C5, C6, C7, C8, C9) where
    T: TableSchema,
    C1: SelectExpr<T>,
    C2: SelectExpr<T>,
    C3: SelectExpr<T>,
    C4: SelectExpr<T>,
    C5: SelectExpr<T>,
    C6: SelectExpr<T>,
    C7: SelectExpr<T>,
    C8: SelectExpr<T>,
    C9: SelectExpr<T>,
 {
    open spec fn column_list() -> Seq<ColumnExpr> {
        seq![C1::select_entry(), C2::select_entry(), C3::select_entry(), C4::select_entry(), C5::select_entry(), C6::select_entry(), C7::select_entry(), C8::select_entry(), C9::select_entry()]
    }

    fn column_exprs() -> (v: Vec<ColumnExpr>) {
        vec![C1::column_expr(), C2::column_expr(), C3::column_expr(), C4::column_expr(), C5::column_expr(), C6::column_expr(), C7::column_expr(), C8::column_expr(), C9::column_expr()]
    }
}

impl<T, C1, C2, C3, C4, C5, C6, C7, C8, C9, C10> ColumnSet<T> for (C1, C2, C3, C4, C5, C6, C7, C8, C9, C10) where
    T: TableSchema,
    C1: SelectExpr<T>,
    C2: SelectExpr<T>,
    C3: SelectExpr<T>,
    C4: SelectExpr<T>,
    C5: SelectExpr<T>,
    C6: SelectExpr<T>,
    C7: SelectExpr<T>,
    C8: SelectExpr<T>,
    C9: SelectExpr<T>,
    C10: SelectExpr<T>,
 {
    open spec fn column_list() -> Seq<ColumnExpr> {
        seq![C1::select_entry(), C2::select_entry(), C3::select_entry(), C4::select_entry(), C5::select_entry(), C6::select_entry(), C7::select_entry(), C8::select_entry(), C9::select_entry(), C10::select_entry()]
    }

    fn column_exprs() -> (v: Vec<ColumnExpr>) {
        vec![C1::column_expr(), C2::column_expr(), C3::column_expr(), C4::column_expr(), C5::column_expr(), C6::column_expr(), C7::column_expr(), C8::column_expr(), C9::column_expr(), C10::column_expr()]
    }
}

impl<T, C1, C2, C3, C4, C5, C6, C7, C8, C9, C10, C11> ColumnSet<T> for (C1, C2, C3, C4, C5, C6, C7, C8, C9, C10, C11) where
    T: TableSchema,
    C1: SelectExpr<T>,
    C2: SelectExpr<T>,
    C3: SelectExpr<T>,
    C4: SelectExpr<T>,
    C5: SelectExpr<T>,
    C6: SelectExpr<T>,
    C7: SelectExpr<T>,
    C8: SelectExpr<T>,
    C9: SelectExpr<T>,
    C10: SelectExpr<T>,
    C11: SelectExpr<T>,
 {
    open spec fn column_list() -> Seq<ColumnExpr> {
        seq![C1::select_entry(), C2::select_entry(), C3::select_entry(), C4::select_entry(), C5::select_entry(), C6::select_entry(), C7::select_entry(), C8::select_entry(), C9::select_entry(), C10::select_entry(), C11::select_entry()]
    }

    fn column_exprs() -> (v: Vec<ColumnExpr>) {
        vec![C1::column_expr(), C2::column_expr(), C3::column_expr(), C4::column_expr(), C5::column_expr(), C6::column_expr(), C7::column_expr(), C8::column_expr(), C9::column_expr(), C10::column_expr(), C11::column_expr()]
    }
}

impl<T, C1, C2, C3, C4, C5, C6, C7, C8, C9, C10, C11, C12> ColumnSet<T> for (C1, C2, C3, C4, C5, C6, C7, C8, C9, C10, C11, C12) where
    T: TableSchema,
    C1: SelectExpr<T>,
    C2: SelectExpr<T>,
    C3: SelectExpr<T>,
    C4: SelectExpr<T>,
    C5: SelectExpr<T>,
    C6: SelectExpr<T>,
    C7: SelectExpr<T>,
    C8: SelectExpr<T>,
    C9: SelectExpr<T>,
    C10: SelectExpr<T>,
    C11: SelectExpr<T>,
    C12: SelectExpr<T>,
 {
    open spec fn column_list() -> Seq<ColumnExpr> {
        seq![C1::select_entry(), C2::select_entry(), C3::select_entry(), C4::select_entry(), C5::select_entry(), C6::select_entry(), C7::select_entry(), C8::select_entry(), C9::select_entry(), C10::select_entry(), C11::select_entry(), C12::select_entry()]
    }

    fn column_exprs() -> (v: Vec<ColumnExpr>) {
        vec![C1::column_expr(), C2::column_expr(), C3::column_expr(), C4::column_expr(), C5::column_expr(), C6::column_expr(), C7::column_expr(), C8::column_expr(), C9::column_expr(), C10::column_expr(), C11::column_expr(), C12::column_expr()]
    }
}

impl<T, C1, C2, C3, C4, C5, C6, C7, C8, C9, C10, C11, C12, C13> ColumnSet<T> for (C1, C2, C3, C4, C5, C6, C7, C8, C9, C10, C11, C12, C13) where
    T: TableSchema,
    C1: SelectExpr<T>,
    C2: SelectExpr<T>,
    C3: SelectExpr<T>,
    C4: SelectExpr<T>,
    C5: SelectExpr<T>,
    C6: SelectExpr<T>,
    C7: SelectExpr<T>,
    C8: SelectExpr<T>,
    C9: SelectExpr<T>,
    C10: SelectExpr<T>,
    C11: SelectExpr<T>,
    C12: SelectExpr<T>,
    C13: SelectExpr<T>,
 {
    open spec fn column_list() -> Seq<ColumnExpr> {
        seq![C1::select_entry(), C2::select_entry(), C3::select_entry(), C4::select_entry(), C5::select_entry(), C6::select_entry(), C7::select_entry(), C8::select_entry(), C9::select_entry(), C10::select_entry(), C11::select_entry(), C12::select_entry(), C13::select_entry()]
    }

    fn column_exprs() -> (v: Vec<ColumnExpr>) {
        vec![C1::column_expr(), C2::column_expr(), C3::column_expr(), C4::column_expr(), C5::column_expr(), C6::column_expr(), C7::column_expr(), C8::column_expr(), C9::column_expr(), C10::column_expr(), C11::column_expr(), C12::column_expr(), C13::column_expr()]
    }
}

impl<T, C1, C2, C3, C4, C5, C6, C7, C8, C9, C10, C11, C12, C13, C14> ColumnSet<T> for (C1, C2, C3, C4, C5, C6, C7, C8, C9, C10, C11, C12, C13, C14) where
    T: TableSchema,
    C1: SelectExpr<T>,
    C2: SelectExpr<T>,
    C3: SelectExpr<T>,
    C4: SelectExpr<T>,
    C5: SelectExpr<T>,
    C6: SelectExpr<T>,
    C7: SelectExpr<T>,
    C8: SelectExpr<T>,
    C9: SelectExpr<T>,
    C10: SelectExpr<T>,
    C11: SelectExpr<T>,
    C12: SelectExpr<T>,
    C13: SelectExpr<T>,
    C14: SelectExpr<T>,
 {
    open spec fn column_list() -> Seq<ColumnExpr> {
        seq![C1::select_entry(), C2::select_entry(), C3::select_entry(), C4::select_entry(), C5::select_entry(), C6::select_entry(), C7::select_entry(), C8::select_entry(), C9::select_entry(), C10::select_entry(), C11::select_entry(), C12::select_entry(), C13::select_entry(), C14::select_entry()]
    }

    fn column_exprs() -> (v: Vec<ColumnExpr>) {
        vec![C1::column_expr(), C2::column_expr(), C3::column_expr(), C4::column_expr(), C5::column_expr(), C6::column_expr(), C7::column_expr(), C8::column_expr(), C9::column_expr(), C10::column_expr(), C11::column_expr(), C12::column_expr(), C13::column_expr(), C14::column_expr()]
    }
}

impl<T, C1, C2, C3, C4, C5, C6, C7, C8, C9, C10, C11, C12, C13, C14, C15> ColumnSet<T> for (C1, C2, C3, C4, C5, C6, C7, C8, C9, C10, C11, C12, C13, C14, C15) where
    T: TableSchema,
    C1: SelectExpr<T>,
    C2: SelectExpr<T>,
    C3: SelectExpr<T>,
    C4: SelectExpr<T>,
    C5: SelectExpr<T>,
    C6: SelectExpr<T>,
    C7: SelectExpr<T>,
    C8: SelectExpr<T>,
    C9: SelectExpr<T>,
    C10: SelectExpr<T>,
    C11: SelectExpr<T>,
    C12: SelectExpr<T>,
    C13: SelectExpr<T>,
    C14: SelectExpr<T>,
    C15: SelectExpr<T>,
 {
    open spec fn column_list() -> Seq<ColumnExpr> {
        seq![C1::select_entry(), C2::select_entry(), C3::select_entry(), C4::select_entry(), C5::select_entry(), C6::select_entry(), C7::select_entry(), C8::select_entry(), C9::select_entry(), C10::select_entry(), C11::select_entry(), C12::select_entry(), C13::select_entry(), C14::select_entry(), C15::select_entry()]
    }

    fn column_exprs() -> (v: Vec<ColumnExpr>) {
        vec![C1::column_expr(), C2::column_expr(), C3::column_expr(), C4::column_expr(), C5::column_expr(), C6::column_expr(), C7::column_expr(), C8::column_expr(), C9::column_expr(), C10::column_expr(), C11::column_expr(), C12::column_expr(), C13::column_expr(), C14::column_expr(), C15::column_expr()]
    }
}

impl<T, C1, C2, C3, C4, C5, C6, C7, C8, C9, C10, C11, C12, C13, C14, C15, C16> ColumnSet<T> for (C1, C2, C3, C4, C5, C6, C7, C8, C9, C10, C11, C12, C13, C14, C15, C16) where
    T: TableSchema,
    C1: SelectExpr<T>,
    C2: SelectExpr<T>,
    C3: SelectExpr<T>,
    C4: SelectExpr<T>,
    C5: SelectExpr<T>,
    C6: SelectExpr<T>,
    C7: SelectExpr<T>,
    C8: SelectExpr<T>,
    C9: SelectExpr<T>,
    C10: SelectExpr<T>,
    C11: SelectExpr<T>,
    C12: SelectExpr<T>,
    C13: SelectExpr<T>,
    C14: SelectExpr<T>,
    C15: SelectExpr<T>,
    C16: SelectExpr<T>,
 {
    open spec fn column_list() -> Seq<ColumnExpr> {
        seq![C1::select_entry(), C2::select_entry(), C3::select_entry(), C4::select_entry(), C5::select_entry(), C6::select_entry(), C7::select_entry(), C8::select_entry(), C9::select_entry(), C10::select_entry(), C11::select_entry(), C12::select_entry(), C13::select_entry(), C14::select_entry(), C15::select_entry(), C16::select_entry()]
    }

    fn column_exprs() -> (v: Vec<ColumnExpr>) {
        vec![C1::column_expr(), C2::column_expr(), C3::column_expr(), C4::column_expr(), C5::column_expr(), C6::column_expr(), C7::column_expr(), C8::column_expr(), C9::column_expr(), C10::column_expr(), C11::column_expr(), C12::column_expr(), C13::column_expr(), C14::column_expr(), C15::column_expr(), C16::column_expr()]
    }
}

// ── Nullability helpers ───────────────────────────────────────────────────────

/// A column of `T` that is never NULL.
pub trait NotNullColumn<T: TableSchema>: BelongsTo<T, Null = NotNull> {}

impl<T: TableSchema, C: BelongsTo<T, Null = NotNull>> NotNullColumn<T> for C {}

/// A column of `T` that may be NULL.
pub trait NullableColumn<T: TableSchema>: BelongsTo<T, Null = Nullable> {}

impl<T: TableSchema, C: BelongsTo<T, Null = Nullable>> NullableColumn<T> for C {}

/// A column of `T` whose values are unique.
pub trait UniqueColumn<T: TableSchema>: BelongsTo<T> {}

} // verus!
