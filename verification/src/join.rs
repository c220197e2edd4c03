//! Primary and foreign keys, and the JOIN clauses they allow.
use vstd::prelude::*;

use crate::select::NotNull;
use crate::{BelongsTo, TableSchema};

verus! {

// ── PK / FK traits ───────────────────────────────────────────────────────────

/// The primary key column of `T`.
pub trait PrimaryKey<T: TableSchema>: BelongsTo<T, Null = NotNull> {}

/// A column of `T` that refers to the primary key `RefColumn` of `References`.
pub trait ForeignKey<T: TableSchema>: BelongsTo<T> {
    type References: TableSchema;

    type RefColumn: PrimaryKey<Self::References>;
}

/// A table with a primary key.
pub trait HasPrimaryKey: TableSchema + Sized {
    type PkColumn: PrimaryKey<Self>;
}

// ── Join clause ───────────────────────────────────────────────────────────────

#[derive(Clone, Copy)]
pub enum JoinType {
    Inner,
    Left,
}

/// `<kind> JOIN b ON a.fk = b.fk_ref`
pub struct JoinClause {
    kind: JoinType,
    table_name_a: String,
    table_name_b: String,
    table_fk: String,
    table_fk_ref: String,
}

impl JoinClause {
    /// Whether the clause joins `b` to `a` by `a.fk = b.fk_ref`, of kind `kind`.
    pub closed spec fn describes(
        &self,
        kind: JoinType,
        a: Seq<char>,
        b: Seq<char>,
        fk: Seq<char>,
        fk_ref: Seq<char>,
    ) -> bool {
        &&& self.kind == kind
        &&& self.table_name_a@ == a
        &&& self.table_name_b@ == b
        &&& self.table_fk@ == fk
        &&& self.table_fk_ref@ == fk_ref
    }

    /// The JOIN keyword of the clause's kind.
    pub open spec fn keyword(kind: JoinType) -> Seq<char> {
        match kind {
            JoinType::Inner => "INNER JOIN"@,
            JoinType::Left => "LEFT JOIN"@,
        }
    }

    /// The clause as SQL.
    pub closed spec fn sql(&self) -> Seq<char> {
        Self::keyword(self.kind) + " "@ + self.table_name_b@ + " ON "@ + self.table_name_a@ + "."@
            + self.table_fk@ + " = "@ + self.table_name_b@ + "."@ + self.table_fk_ref@
    }

    /// The SQL of a clause is fixed by what it describes.
    pub proof fn lemma_sql(
        &self,
        kind: JoinType,
        a: Seq<char>,
        b: Seq<char>,
        fk: Seq<char>,
        fk_ref: Seq<char>,
    )
        requires
            self.describes(kind, a, b, fk, fk_ref),
        ensures
            self.sql() == Self::keyword(kind) + " "@ + b + " ON "@ + a + "."@ + fk + " = "@ + b
                + "."@ + fk_ref,
    {
    }

    pub(crate) fn new(
        kind: JoinType,
        a: &'static str,
        b: &'static str,
        fk: &'static str,
        fk_ref: &'static str,
    ) -> (j: Self)
        ensures
            j.describes(kind, a@, b@, fk@, fk_ref@),
    {
        JoinClause {
            kind,
            table_name_a: String::from_str(a),
            table_name_b: String::from_str(b),
            table_fk: String::from_str(fk),
            table_fk_ref: String::from_str(fk_ref),
        }
    }

    /// A copy of the clause.
    pub(crate) fn copy(&self) -> (j: Self)
        ensures
            j == *self,
    {
        JoinClause {
            kind: self.kind,
            table_name_a: self.table_name_a.clone(),
            table_name_b: self.table_name_b.clone(),
            table_fk: self.table_fk.clone(),
            table_fk_ref: self.table_fk_ref.clone(),
        }
    }

    pub(crate) fn to_sql(&self) -> (s: String)
        ensures
            s@ == self.sql(),
    {
        let keyword = match self.kind {
            JoinType::Inner => "INNER JOIN",
            JoinType::Left => "LEFT JOIN",
        };
        let mut s = String::from_str(keyword);
        s.append(" ");
        s.append(self.table_name_b.as_str());
        s.append(" ON ");
        s.append(self.table_name_a.as_str());
        s.append(".");
        s.append(self.table_fk.as_str());
        s.append(" = ");
        s.append(self.table_name_b.as_str());
        s.append(".");
        s.append(self.table_fk_ref.as_str());
        s
    }
}

} // verus!
