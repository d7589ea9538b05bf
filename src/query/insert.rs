//! INSERT statements: columns, then the table, then the values.
use crate::text::{join_strs, joined, str_views};
use vstd::prelude::*;

verus! {

/// What an INSERT statement under construction holds.
pub struct InsertState {
    pub table: Seq<char>,
    /// The column list, already joined with `", "`.
    pub columns: Seq<char>,
    /// The value list, already joined with `", "`.
    pub values: Seq<char>,
}

/// The SQL text of an INSERT statement.
pub open spec fn insert_text(s: InsertState) -> Seq<char> {
    "INSERT INTO "@ + s.table + "("@ + s.columns + ") VALUES("@ + s.values + ")"@
}

struct RawInsert {
    table: String,
    columns: String,
    values: String,
}

impl RawInsert {
    spec fn state(self) -> InsertState {
        InsertState { table: self.table@, columns: self.columns@, values: self.values@ }
    }

    fn to_text(&self) -> (r: String)
        ensures
            r@ == insert_text(self.state()),
    {
        let mut sql = String::new();
        sql.append("INSERT INTO ");
        sql.append(self.table.as_str());
        sql.append("(");
        sql.append(self.columns.as_str());
        sql.append(") VALUES(");
        sql.append(self.values.as_str());
        sql.append(")");
        sql
    }
}

/// Columns chosen; the table comes next.
pub struct Insert(RawInsert);

/// Table chosen; the values come next.
pub struct InsertInto(RawInsert);

/// A complete INSERT statement.
pub struct FinalInsert(RawInsert);

impl View for Insert {
    type V = InsertState;

    closed spec fn view(&self) -> InsertState {
        self.0.state()
    }
}

impl View for InsertInto {
    type V = InsertState;

    closed spec fn view(&self) -> InsertState {
        self.0.state()
    }
}

impl View for FinalInsert {
    type V = InsertState;

    closed spec fn view(&self) -> InsertState {
        self.0.state()
    }
}

impl Insert {
    pub fn into(self, table: &str) -> (r: InsertInto)
        ensures
            r@ == (InsertState { table: table@, ..self@ }),
    {
        let mut raw = self.0;
        raw.table = table.to_owned();
        InsertInto(raw)
    }
}

impl InsertInto {
    pub fn values(self, values: &[&str]) -> (r: FinalInsert)
        ensures
            r@ == (InsertState { values: joined(str_views(values@), ", "@), ..self@ }),
    {
        let mut raw = self.0;
        raw.values = join_strs(values, ", ");
        FinalInsert(raw)
    }
}

impl FinalInsert {
    pub fn to_text(&self) -> (r: String)
        ensures
            r@ == insert_text(self@),
    {
        self.0.to_text()
    }
}

/// Starts an INSERT into the given columns, joined with `", "`.
pub fn insert(columns: &[&str]) -> (r: Insert)
    ensures
        r@ == (InsertState {
            table: Seq::empty(),
            columns: joined(str_views(columns@), ", "@),
            values: Seq::empty(),
        }),
{
    Insert(RawInsert { table: String::new(), columns: join_strs(columns, ", "), values: String::new() })
}

} // verus!
