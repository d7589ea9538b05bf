//! UPDATE statements: the table, the assignments, then an optional predicate.
use crate::text::{conjoined, disjoined, joined, push_and, push_or, push_section, section};
use vstd::prelude::*;

verus! {

/// What an UPDATE statement under construction holds.
pub struct UpdateState {
    pub table: Seq<char>,
    /// The assignments, rendered and joined with `", "`.
    pub data: Seq<char>,
    /// The predicate; an empty one renders no WHERE clause.
    pub where_: Seq<char>,
}

/// One assignment `column = value`.
pub open spec fn assignment_text(pair: (&str, &str)) -> Seq<char> {
    pair.0@ + " = "@ + pair.1@
}

/// The rendered assignments, in order.
pub open spec fn assignments_text(pairs: Seq<(&str, &str)>) -> Seq<Seq<char>> {
    pairs.map_values(|p: (&str, &str)| assignment_text(p))
}

/// The SQL text of an UPDATE statement.
pub open spec fn update_text(s: UpdateState) -> Seq<char> {
    "UPDATE "@ + s.table + " SET "@ + s.data + section(" WHERE "@, s.where_)
}

struct RawUpdate {
    table: String,
    data: String,
    where_: String,
}

impl RawUpdate {
    spec fn state(self) -> UpdateState {
        UpdateState { table: self.table@, data: self.data@, where_: self.where_@ }
    }

    fn to_text(&self) -> (r: String)
        ensures
            r@ == update_text(self.state()),
    {
        let mut sql = String::new();
        sql.append("UPDATE ");
        sql.append(self.table.as_str());
        sql.append(" SET ");
        sql.append(self.data.as_str());
        push_section(&mut sql, " WHERE ", self.where_.as_str());
        sql
    }
}

fn assignments(data: &[(&str, &str)]) -> (r: String)
    ensures
        r@ == joined(assignments_text(data@), ", "@),
{
    let mut parts: Vec<String> = Vec::new();
    let mut i: usize = 0;
    while i < data.len()
        invariant
            i <= data@.len(),
            parts@.len() == i,
            forall|j: int| 0 <= j < i ==> #[trigger] parts@[j]@ == assignment_text(data@[j]),
        decreases data@.len() - i,
    {
        let (col, val) = data[i];
        let mut part = String::new();
        part.append(col);
        part.append(" = ");
        part.append(val);
        parts.push(part);
        i = i + 1;
    }
    assert(crate::text::string_views(parts@) =~= assignments_text(data@));
    crate::text::join_strings(&parts, ", ")
}

/// Table chosen; the assignments come next.
pub struct Update(RawUpdate);

/// Assignments chosen; a predicate may follow.
pub struct UpdateSet(RawUpdate);

/// Predicate chosen; it may be extended with AND and OR.
pub struct UpdateWhere(RawUpdate);

impl View for Update {
    type V = UpdateState;

    closed spec fn view(&self) -> UpdateState {
        self.0.state()
    }
}

impl View for UpdateSet {
    type V = UpdateState;

    closed spec fn view(&self) -> UpdateState {
        self.0.state()
    }
}

impl View for UpdateWhere {
    type V = UpdateState;

    closed spec fn view(&self) -> UpdateState {
        self.0.state()
    }
}

impl Update {
    /// Sets the assignments, each rendered `column = value`, joined with `", "`.
    pub fn set(self, data: &[(&str, &str)]) -> (r: UpdateSet)
        ensures
            r@ == (UpdateState { data: joined(assignments_text(data@), ", "@), ..self@ }),
    {
        let mut raw = self.0;
        raw.data = assignments(data);
        UpdateSet(raw)
    }
}

impl UpdateSet {
    pub fn where_(self, cond: &str) -> (r: UpdateWhere)
        ensures
            r@ == (UpdateState { where_: cond@, ..self@ }),
    {
        let mut raw = self.0;
        raw.where_ = cond.to_owned();
        UpdateWhere(raw)
    }

    pub fn to_text(&self) -> (r: String)
        ensures
            r@ == update_text(self@),
    {
        self.0.to_text()
    }
}

impl UpdateWhere {
    pub fn and(self, cond: &str) -> (r: Self)
        ensures
            r@ == (UpdateState { where_: conjoined(self@.where_, cond@), ..self@ }),
    {
        let mut raw = self.0;
        push_and(&mut raw.where_, cond);
        UpdateWhere(raw)
    }

    pub fn or(self, cond: &str) -> (r: Self)
        ensures
            r@ == (UpdateState { where_: disjoined(self@.where_, cond@), ..self@ }),
    {
        let mut raw = self.0;
        push_or(&mut raw.where_, cond);
        UpdateWhere(raw)
    }

    pub fn to_text(&self) -> (r: String)
        ensures
            r@ == update_text(self@),
    {
        self.0.to_text()
    }
}

/// Starts an UPDATE of `table`, with no assignments and no predicate yet.
pub fn update(table: &str) -> (r: Update)
    ensures
        r@ == (UpdateState { table: table@, data: Seq::empty(), where_: Seq::empty() }),
{
    Update(RawUpdate { table: table.to_owned(), data: String::new(), where_: String::new() })
}

} // verus!
