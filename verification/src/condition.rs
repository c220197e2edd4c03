//! Typed values, condition atoms and the `WhereClause` builder.
use std::marker::PhantomData;
use vstd::prelude::*;

use crate::query::{QueryInternData, SubqueryBody};
use crate::render;
use crate::select::{NotNullColumn, NullableColumn};
use crate::{BelongsTo, Subquery, SubquerySql, TableSchema};

verus! {

// ── Typed value ───────────────────────────────────────────────────────────────

/// A value that a condition or an assignment compares with or stores.
/// A floating-point number is carried as the decimal text it is rendered as.
#[derive(Clone)]
pub enum Value {
    Int(i64),
    Float(String),
    Text(String),
    Bool(bool),
}

/// What a `Value` holds, its texts as character sequences.
pub enum ValueView {
    Int(i64),
    Float(Seq<char>),
    Text(Seq<char>),
    Bool(bool),
}

impl View for Value {
    type V = ValueView;

    open spec fn view(&self) -> ValueView {
        match self {
            Value::Int(i) => ValueView::Int(*i),
            Value::Float(s) => ValueView::Float(s@),
            Value::Text(s) => ValueView::Text(s@),
            Value::Bool(b) => ValueView::Bool(*b),
        }
    }
}

impl Value {
    /// The value as an SQL literal: a number in decimal, a text quoted with
    /// its single quotes doubled, a boolean as `TRUE` or `FALSE`.
    pub(crate) fn to_sql(&self) -> (s: String)
        ensures
            s@ == render::value_sql(*self),
    {
        let mut out = String::new();
        render::push_value(&mut out, self);
        out
    }
}

/// A Rust value that converts into a `Value`.
pub trait IntoValue: Sized {
    /// The value it converts into.
    spec fn value_view(self) -> ValueView;

    fn into_value(self) -> (v: Value)
        ensures
            v@ == self.value_view(),
    ;
}

impl IntoValue for isize {
    open spec fn value_view(self) -> ValueView {
        ValueView::Int(self as i64)
    }

    fn into_value(self) -> (v: Value) {
        Value::Int(self as i64)
    }
}

impl IntoValue for usize {
    open spec fn value_view(self) -> ValueView {
        ValueView::Int(self as i64)
    }

    fn into_value(self) -> (v: Value) {
        Value::Int(self as i64)
    }
}

impl IntoValue for u32 {
    open spec fn value_view(self) -> ValueView {
        ValueView::Int(self as i64)
    }

    fn into_value(self) -> (v: Value) {
        Value::Int(self as i64)
    }
}

impl IntoValue for u64 {
    open spec fn value_view(self) -> ValueView {
        ValueView::Int(self as i64)
    }

    fn into_value(self) -> (v: Value) {
        Value::Int(self as i64)
    }
}

impl IntoValue for i32 {
    open spec fn value_view(self) -> ValueView {
        ValueView::Int(self as i64)
    }

    fn into_value(self) -> (v: Value) {
        Value::Int(self as i64)
    }
}

impl IntoValue for i64 {
    open spec fn value_view(self) -> ValueView {
        ValueView::Int(self)
    }

    fn into_value(self) -> (v: Value) {
        Value::Int(self)
    }
}

impl IntoValue for bool {
    open spec fn value_view(self) -> ValueView {
        ValueView::Bool(self)
    }

    fn into_value(self) -> (v: Value) {
        Value::Bool(self)
    }
}

impl IntoValue for String {
    open spec fn value_view(self) -> ValueView {
        ValueView::Text(self@)
    }

    fn into_value(self) -> (v: Value) {
        Value::Text(self)
    }
}

impl<'a> IntoValue for &'a str {
    open spec fn value_view(self) -> ValueView {
        ValueView::Text(self@)
    }

    fn into_value(self) -> (v: Value) {
        Value::Text(self.to_owned())
    }
}

// ── Condition atom ────────────────────────────────────────────────────────────

/// One predicate of a condition, or the `AND` / `OR` between two of them.
pub enum ConditionAtom {
    Eq(&'static str, Value),
    NotEq(&'static str, Value),
    Lt(&'static str, Value),
    LtEq(&'static str, Value),
    Gt(&'static str, Value),
    GtEq(&'static str, Value),
    Like(&'static str, Value),
    IsNull(&'static str),
    IsNotNull(&'static str),
    Between(&'static str, Value, Value),
    InValues(&'static str, Vec<Value>),
    InSubquery(&'static str, Box<QueryInternData>),
    NotInSubquery(&'static str, Box<QueryInternData>),
    Exists(Box<SubqueryBody>),
    NotExists(Box<SubqueryBody>),
    And,
    Or,
}

impl ConditionAtom {
    /// Whether the atom embeds a subquery.
    pub open spec fn has_subquery(&self) -> bool {
        ||| self is InSubquery
        ||| self is NotInSubquery
        ||| self is Exists
        ||| self is NotExists
    }

    /// The SQL of an atom that embeds no subquery.
    pub(crate) fn to_sql(&self) -> (s: String)
        requires
            !self.has_subquery(),
        ensures
            s@ == render::atom_sql(*self),
    {
        let mut out = String::new();
        render::push_plain_atom(&mut out, self);
        out
    }
}

// ── WhereClause typestates ────────────────────────────────────────────────────

/// A clause with no predicate yet.
pub struct NoCondition;

/// A clause that ends in a predicate.
pub struct HasCondition;

/// A clause that ends in `AND` or `OR` and awaits a predicate.
pub struct NeedsOperand;

/// Whether an atom is the `AND` or `OR` between two predicates.
pub open spec fn is_connector(a: ConditionAtom) -> bool {
    a is And || a is Or
}

/// Whether predicates and connectors alternate, starting with a predicate.
pub open spec fn alternates(s: Seq<ConditionAtom>) -> bool {
    forall|i: int| 0 <= i < s.len() ==> (is_connector(#[trigger] s[i]) <==> i % 2 == 1)
}

/// A state of a clause, by how many atoms a clause in it holds.
pub trait ClauseState {
    spec fn holds(len: nat) -> bool;
}

impl ClauseState for NoCondition {
    open spec fn holds(len: nat) -> bool {
        len == 0
    }
}

impl ClauseState for HasCondition {
    open spec fn holds(len: nat) -> bool {
        len % 2 == 1
    }
}

impl ClauseState for NeedsOperand {
    open spec fn holds(len: nat) -> bool {
        len > 0 && len % 2 == 0
    }
}

/// The states in which a clause accepts its next predicate: those whose
/// clauses hold an even number of atoms.
pub trait ExpectsOperand: ClauseState {
    proof fn lemma_even(len: nat)
        requires
            Self::holds(len),
        ensures
            len % 2 == 0,
    ;
}

impl ExpectsOperand for NoCondition {
    proof fn lemma_even(len: nat) {
    }
}

impl ExpectsOperand for NeedsOperand {
    proof fn lemma_even(len: nat) {
    }
}

// ── WhereClause builder ───────────────────────────────────────────────────────

/// A condition on table `T`: predicates joined by `AND` / `OR`. Predicates and
/// connectors alternate, and `State` tells whether the last atom is a
/// predicate.
pub struct WhereClause<T: TableSchema, State: ClauseState> {
    fragments: Vec<ConditionAtom>,
    _table: PhantomData<T>,
    _state: PhantomData<State>,
}

impl<T: TableSchema, State: ClauseState> View for WhereClause<T, State> {
    type V = Seq<ConditionAtom>;

    closed spec fn view(&self) -> Seq<ConditionAtom> {
        self.fragments@
    }
}

impl<T: TableSchema, State: ClauseState> WhereClause<T, State> {
    #[verifier::type_invariant]
    spec fn well_formed(self) -> bool {
        alternates(self.fragments@) && State::holds(self.fragments@.len())
    }

    pub(crate) fn into_fragments(self) -> (v: Vec<ConditionAtom>)
        ensures
            v@ == self@,
            alternates(v@),
            State::holds(v@.len()),
    {
        proof {
            use_type_invariant(&self);
        }
        self.fragments
    }
}

/// Whether `after` is `before` with one more atom at its end.
pub open spec fn one_more(after: Seq<ConditionAtom>, before: Seq<ConditionAtom>) -> bool {
    after =~= before.push(after.last())
}

impl<T: TableSchema> WhereClause<T, NoCondition> {
    pub fn new() -> (w: Self)
        ensures
            w@ == Seq::<ConditionAtom>::empty(),
    {
        WhereClause { fragments: Vec::new(), _table: PhantomData, _state: PhantomData }
    }
}

impl<T: TableSchema> Default for WhereClause<T, NoCondition> {
    fn default() -> (w: Self)
        ensures
            w@ == Seq::<ConditionAtom>::empty(),
    {
        Self::new()
    }
}

fn wc_transition<T: TableSchema, S: ClauseState>(frags: Vec<ConditionAtom>) -> (w: WhereClause<
    T,
    S,
>)
    requires
        alternates(frags@),
        S::holds(frags@.len()),
    ensures
        w@ == frags@,
{
    WhereClause { fragments: frags, _table: PhantomData, _state: PhantomData }
}

/// One more predicate after a clause that awaits one.
proof fn lemma_push_predicate(s: Seq<ConditionAtom>, a: ConditionAtom)
    requires
        alternates(s),
        s.len() % 2 == 0,
        !is_connector(a),
    ensures
        alternates(s.push(a)),
        s.push(a).len() % 2 == 1,
{
    assert forall|i: int| 0 <= i < s.push(a).len() implies (is_connector(#[trigger] s.push(a)[i])
        <==> i % 2 == 1) by {
        if i < s.len() {
            assert(s.push(a)[i] == s[i]);
        }
    }
}

/// One more connector after a clause that ends in a predicate.
proof fn lemma_push_connector(s: Seq<ConditionAtom>, a: ConditionAtom)
    requires
        alternates(s),
        s.len() % 2 == 1,
        is_connector(a),
    ensures
        alternates(s.push(a)),
        s.push(a).len() % 2 == 0,
{
    assert forall|i: int| 0 <= i < s.push(a).len() implies (is_connector(#[trigger] s.push(a)[i])
        <==> i % 2 == 1) by {
        if i < s.len() {
            assert(s.push(a)[i] == s[i]);
        }
    }
}

impl<T: TableSchema, S: ExpectsOperand> WhereClause<T, S> {
    /// `col = value`
    pub fn eq<C, V>(self, value: V) -> (w: WhereClause<T, HasCondition>) where
        C: NotNullColumn<T>,
        V: IntoValue,

        ensures
            one_more(w@, self@),
            w@.last() matches ConditionAtom::Eq(c, v) && c == C::COLUMN_NAME && v@
                == value.value_view(),
    {
        let mut fragments = self.into_fragments();
        let ghost before = fragments@;
        proof {
            S::lemma_even(before.len());
        }
        fragments.push(ConditionAtom::Eq(C::COLUMN_NAME, value.into_value()));
        proof {
            assert(fragments@ == before.push(fragments@.last()));
            lemma_push_predicate(before, fragments@.last());
        }
        wc_transition(fragments)
    }

    /// `col <> value`
    pub fn not_eq<C, V>(self, value: V) -> (w: WhereClause<T, HasCondition>) where
        C: NotNullColumn<T>,
        V: IntoValue,

        ensures
            one_more(w@, self@),
            w@.last() matches ConditionAtom::NotEq(c, v) && c == C::COLUMN_NAME && v@
                == value.value_view(),
    {
        let mut fragments = self.into_fragments();
        let ghost before = fragments@;
        proof {
            S::lemma_even(before.len());
        }
        fragments.push(ConditionAtom::NotEq(C::COLUMN_NAME, value.into_value()));
        proof {
            assert(fragments@ == before.push(fragments@.last()));
            lemma_push_predicate(before, fragments@.last());
        }
        wc_transition(fragments)
    }

    /// `col < value`
    pub fn lt<C, V>(self, value: V) -> (w: WhereClause<T, HasCondition>) where
        C: NotNullColumn<T>,
        V: IntoValue,

        ensures
            one_more(w@, self@),
            w@.last() matches ConditionAtom::Lt(c, v) && c == C::COLUMN_NAME && v@
                == value.value_view(),
    {
        let mut fragments = self.into_fragments();
        let ghost before = fragments@;
        proof {
            S::lemma_even(before.len());
        }
        fragments.push(ConditionAtom::Lt(C::COLUMN_NAME, value.into_value()));
        proof {
            assert(fragments@ == before.push(fragments@.last()));
            lemma_push_predicate(before, fragments@.last());
        }
        wc_transition(fragments)
    }

    /// `col <= value`
    pub fn lt_eq<C, V>(self, value: V) -> (w: WhereClause<T, HasCondition>) where
        C: NotNullColumn<T>,
        V: IntoValue,

        ensures
            one_more(w@, self@),
            w@.last() matches ConditionAtom::LtEq(c, v) && c == C::COLUMN_NAME && v@
                == value.value_view(),
    {
        let mut fragments = self.into_fragments();
        let ghost before = fragments@;
        proof {
            S::lemma_even(before.len());
        }
        fragments.push(ConditionAtom::LtEq(C::COLUMN_NAME, value.into_value()));
        proof {
            assert(fragments@ == before.push(fragments@.last()));
            lemma_push_predicate(before, fragments@.last());
        }
        wc_transition(fragments)
    }

    /// `col > value`
    pub fn gt<C, V>(self, value: V) -> (w: WhereClause<T, HasCondition>) where
        C: NotNullColumn<T>,
        V: IntoValue,

        ensures
            one_more(w@, self@),
            w@.last() matches ConditionAtom::Gt(c, v) && c == C::COLUMN_NAME && v@
                == value.value_view(),
    {
        let mut fragments = self.into_fragments();
        let ghost before = fragments@;
        proof {
            S::lemma_even(before.len());
        }
        fragments.push(ConditionAtom::Gt(C::COLUMN_NAME, value.into_value()));
        proof {
            assert(fragments@ == before.push(fragments@.last()));
            lemma_push_predicate(before, fragments@.last());
        }
        wc_transition(fragments)
    }

    /// `col >= value`
    pub fn gt_eq<C, V>(self, value: V) -> (w: WhereClause<T, HasCondition>) where
        C: NotNullColumn<T>,
        V: IntoValue,

        ensures
            one_more(w@, self@),
            w@.last() matches ConditionAtom::GtEq(c, v) && c == C::COLUMN_NAME && v@
                == value.value_view(),
    {
        let mut fragments = self.into_fragments();
        let ghost before = fragments@;
        proof {
            S::lemma_even(before.len());
        }
        fragments.push(ConditionAtom::GtEq(C::COLUMN_NAME, value.into_value()));
        proof {
            assert(fragments@ == before.push(fragments@.last()));
            lemma_push_predicate(before, fragments@.last());
        }
        wc_transition(fragments)
    }

    /// `col LIKE pattern`
    pub fn like<C, V>(self, pattern: V) -> (w: WhereClause<T, HasCondition>) where
        C: NotNullColumn<T>,
        V: IntoValue,

        ensures
            one_more(w@, self@),
            w@.last() matches ConditionAtom::Like(c, v) && c == C::COLUMN_NAME && v@
                == pattern.value_view(),
    {
        let mut fragments = self.into_fragments();
        let ghost before = fragments@;
        proof {
            S::lemma_even(before.len());
        }
        fragments.push(ConditionAtom::Like(C::COLUMN_NAME, pattern.into_value()));
        proof {
            assert(fragments@ == before.push(fragments@.last()));
            lemma_push_predicate(before, fragments@.last());
        }
        wc_transition(fragments)
    }

    /// `col IS NULL`, on a nullable column only.
    pub fn is_null<C>(self) -> (w: WhereClause<T, HasCondition>) where
        C: NullableColumn<T>,

        ensures
            one_more(w@, self@),
            w@.last() == ConditionAtom::IsNull(C::COLUMN_NAME),
    {
        let mut fragments = self.into_fragments();
        let ghost before = fragments@;
        proof {
            S::lemma_even(before.len());
        }
        fragments.push(ConditionAtom::IsNull(C::COLUMN_NAME));
        proof {
            assert(fragments@ == before.push(fragments@.last()));
            lemma_push_predicate(before, fragments@.last());
        }
        wc_transition(fragments)
    }

    /// `col IS NOT NULL`, on a nullable column only.
    pub fn is_not_null<C>(self) -> (w: WhereClause<T, HasCondition>) where
        C: NullableColumn<T>,

        ensures
            one_more(w@, self@),
            w@.last() == ConditionAtom::IsNotNull(C::COLUMN_NAME),
    {
        let mut fragments = self.into_fragments();
        let ghost before = fragments@;
        proof {
            S::lemma_even(before.len());
        }
        fragments.push(ConditionAtom::IsNotNull(C::COLUMN_NAME));
        proof {
            assert(fragments@ == before.push(fragments@.last()));
            lemma_push_predicate(before, fragments@.last());
        }
        wc_transition(fragments)
    }

    /// `col BETWEEN lo AND hi`
    pub fn between<C, V>(self, lo: V, hi: V) -> (w: WhereClause<T, HasCondition>) where
        C: NotNullColumn<T>,
        V: IntoValue,

        ensures
            one_more(w@, self@),
            w@.last() matches ConditionAtom::Between(c, l, h) && c == C::COLUMN_NAME && l@
                == lo.value_view() && h@ == hi.value_view(),
    {
        let mut fragments = self.into_fragments();
        let ghost before = fragments@;
        proof {
            S::lemma_even(before.len());
        }
        fragments.push(ConditionAtom::Between(C::COLUMN_NAME, lo.into_value(), hi.into_value()));
        proof {
            assert(fragments@ == before.push(fragments@.last()));
            lemma_push_predicate(before, fragments@.last());
        }
        wc_transition(fragments)
    }

    /// `col IN (v1, v2, ...)`
    pub fn in_values<C, V>(self, values: Vec<V>) -> (w: WhereClause<T, HasCondition>) where
        C: NotNullColumn<T>,
        V: IntoValue,

        ensures
            one_more(w@, self@),
            w@.last() matches ConditionAtom::InValues(c, vs) && c == C::COLUMN_NAME && vs@.len()
                == values@.len() && forall|i: int|
                0 <= i < vs@.len() ==> #[trigger] vs@[i]@ == values@[i].value_view(),
    {
        let mut vals: Vec<Value> = Vec::new();
        let ghost input = values@;
        for v in it: values
            invariant
                it.seq() == input,
                vals@.len() == it.index(),
                forall|i: int| 0 <= i < vals@.len() ==> #[trigger] vals@[i]@ == input[i].value_view(),
        {
            vals.push(v.into_value());
        }
        let mut fragments = self.into_fragments();
        let ghost before = fragments@;
        proof {
            S::lemma_even(before.len());
        }
        fragments.push(ConditionAtom::InValues(C::COLUMN_NAME, vals));
        proof {
            assert(fragments@ == before.push(fragments@.last()));
            lemma_push_predicate(before, fragments@.last());
        }
        wc_transition(fragments)
    }

    /// `col IN (subquery)`, where the subquery yields the column's value type.
    pub fn in_subquery<C>(self, sq: Subquery<<C as BelongsTo<T>>::Value>) -> (w: WhereClause<
        T,
        HasCondition,
    >) where C: NotNullColumn<T>
        ensures
            one_more(w@, self@),
            w@.last() matches ConditionAtom::InSubquery(c, d) && c == C::COLUMN_NAME && *d
                == sq.query(),
    {
        let mut fragments = self.into_fragments();
        let ghost before = fragments@;
        proof {
            S::lemma_even(before.len());
        }
        fragments.push(ConditionAtom::InSubquery(C::COLUMN_NAME, Box::new(sq.data)));
        proof {
            assert(fragments@ == before.push(fragments@.last()));
            lemma_push_predicate(before, fragments@.last());
        }
        wc_transition(fragments)
    }

    /// `col NOT IN (subquery)`, where the subquery yields the column's value type.
    pub fn not_in_subquery<C>(self, sq: Subquery<<C as BelongsTo<T>>::Value>) -> (w: WhereClause<
        T,
        HasCondition,
    >) where C: NotNullColumn<T>
        ensures
            one_more(w@, self@),
            w@.last() matches ConditionAtom::NotInSubquery(c, d) && c == C::COLUMN_NAME && *d
                == sq.query(),
    {
        let mut fragments = self.into_fragments();
        let ghost before = fragments@;
        proof {
            S::lemma_even(before.len());
        }
        fragments.push(ConditionAtom::NotInSubquery(C::COLUMN_NAME, Box::new(sq.data)));
        proof {
            assert(fragments@ == before.push(fragments@.last()));
            lemma_push_predicate(before, fragments@.last());
        }
        wc_transition(fragments)
    }

    /// `EXISTS (subquery)`
    pub fn exists_query(self, sql: impl SubquerySql) -> (w: WhereClause<T, HasCondition>)
        ensures
            one_more(w@, self@),
            w@.last() matches ConditionAtom::Exists(b) && render::subquery_sql(*b)
                == sql.subquery_text(),
    {
        let mut fragments = self.into_fragments();
        let ghost before = fragments@;
        proof {
            S::lemma_even(before.len());
        }
        fragments.push(ConditionAtom::Exists(Box::new(sql.into_subquery_data())));
        proof {
            assert(fragments@ == before.push(fragments@.last()));
            lemma_push_predicate(before, fragments@.last());
        }
        wc_transition(fragments)
    }

    /// `NOT EXISTS (subquery)`
    pub fn not_exists(self, sql: impl SubquerySql) -> (w: WhereClause<T, HasCondition>)
        ensures
            one_more(w@, self@),
            w@.last() matches ConditionAtom::NotExists(b) && render::subquery_sql(*b)
                == sql.subquery_text(),
    {
        let mut fragments = self.into_fragments();
        let ghost before = fragments@;
        proof {
            S::lemma_even(before.len());
        }
        fragments.push(ConditionAtom::NotExists(Box::new(sql.into_subquery_data())));
        proof {
            assert(fragments@ == before.push(fragments@.last()));
            lemma_push_predicate(before, fragments@.last());
        }
        wc_transition(fragments)
    }
}

impl<T: TableSchema> WhereClause<T, HasCondition> {
    pub fn and(self) -> (w: WhereClause<T, NeedsOperand>)
        ensures
            w@ == self@.push(ConditionAtom::And),
    {
        let mut fragments = self.into_fragments();
        let ghost before = fragments@;
        fragments.push(ConditionAtom::And);
        proof {
            assert(fragments@ == before.push(fragments@.last()));
            lemma_push_connector(before, fragments@.last());
        }
        wc_transition(fragments)
    }

    pub fn or(self) -> (w: WhereClause<T, NeedsOperand>)
        ensures
            w@ == self@.push(ConditionAtom::Or),
    {
        let mut fragments = self.into_fragments();
        let ghost before = fragments@;
        fragments.push(ConditionAtom::Or);
        proof {
            assert(fragments@ == before.push(fragments@.last()));
            lemma_push_connector(before, fragments@.last());
        }
        wc_transition(fragments)
    }

    /// The clause's atoms, each rendered, separated by single spaces.
    pub(crate) fn build_fragment(&self) -> (s: String)
        ensures
            s@ == render::fragment_sql(self@),
    {
        render::build_fragment(&self.fragments)
    }
}

} // verus!
