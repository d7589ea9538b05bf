//! DELETE statements: the table, then an optional predicate.
use crate::query::select::{query_text, QueryState};
use crate::text::{conjoined, disjoined, push_and, push_or, push_section, section};
use vstd::prelude::*;

verus! {

/// What a DELETE statement under construction holds.
pub struct DeleteState {
    pub table: Seq<char>,
    /// The predicate; an empty one renders no WHERE clause.
    pub where_: Seq<char>,
}

/// The SQL text of a DELETE statement.
pub open spec fn delete_text(s: DeleteState) -> Seq<char> {
    "DELETE FROM "@ + s.table + section(" WHERE "@, s.where_)
}

struct RawDelete {
    table: String,
    where_: String,
}

impl RawDelete {
    spec fn state(self) -> DeleteState {
        DeleteState { table: self.table@, where_: self.where_@ }
    }

    fn to_text(&self) -> (r: String)
        ensures
            r@ == delete_text(self.state()),
    {
        let mut sql = String::new();
        sql.append("DELETE FROM ");
        sql.append(self.table.as_str());
        push_section(&mut sql, " WHERE ", self.where_.as_str());
        sql
    }
}

/// Table chosen; a predicate may follow.
pub struct DeleteFrom(RawDelete);

/// Predicate chosen; it may be extended with AND and OR.
pub struct DeleteWhere(RawDelete);

impl View for DeleteFrom {
    type V = DeleteState;

    closed spec fn view(&self) -> DeleteState {
        self.0.state()
    }
}

impl View for DeleteWhere {
    type V = DeleteState;

    closed spec fn view(&self) -> DeleteState {
        self.0.state()
    }
}

impl DeleteFrom {
    pub fn where_(self, cond: &str) -> (r: DeleteWhere)
        ensures
            r@ == (DeleteState { where_: cond@, ..self@ }),
    {
        let mut raw = self.0;
        raw.where_ = cond.to_owned();
        DeleteWhere(raw)
    }

    pub fn to_text(&self) -> (r: String)
        ensures
            r@ == delete_text(self@),
    {
        self.0.to_text()
    }
}

impl DeleteWhere {
    pub fn and(self, cond: &str) -> (r: Self)
        ensures
            r@ == (DeleteState { where_: conjoined(self@.where_, cond@), ..self@ }),
    {
        let mut raw = self.0;
        push_and(&mut raw.where_, cond);
        DeleteWhere(raw)
    }

    pub fn or(self, cond: &str) -> (r: Self)
        ensures
            r@ == (DeleteState { where_: disjoined(self@.where_, cond@), ..self@ }),
    {
        let mut raw = self.0;
        push_or(&mut raw.where_, cond);
        DeleteWhere(raw)
    }

    pub fn to_text(&self) -> (r: String)
        ensures
            r@ == delete_text(self@),
    {
        self.0.to_text()
    }
}

/// Starts a DELETE from `table`, with no predicate yet.
pub fn delete_from(table: &str) -> (r: DeleteFrom)
    ensures
        r@ == (DeleteState { table: table@, where_: Seq::empty() }),
{
    DeleteFrom(RawDelete { table: table.to_owned(), where_: String::new() })
}

/// The rendered text of a SELECT placed inside a DELETE predicate comes out
/// verbatim, between the parts of the predicate around it.
pub proof fn lemma_subquery_embedded_verbatim(
    table: Seq<char>,
    before: Seq<char>,
    inner: QueryState,
    after: Seq<char>,
)
    ensures
        delete_text(
            DeleteState { table, where_: before + query_text(inner) + after },
        ) == "DELETE FROM "@ + table + " WHERE "@ + before + query_text(inner) + after,
{
    reveal_strlit("SELECT");
    let w = before + query_text(inner) + after;
    assert(w.len() > 0);
    assert(delete_text(DeleteState { table, where_: w }) =~= "DELETE FROM "@ + table + " WHERE "@
        + before + query_text(inner) + after);
}

} // verus!
