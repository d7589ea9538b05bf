//! Table-level CHECK constraints.
use vstd::prelude::*;

verus! {

/// The text of a table-level CHECK constraint on `expression`.
pub open spec fn check_text(expression: Seq<char>) -> Seq<char> {
    " CHECK("@ + expression + ") "@
}

/// A table-level CHECK constraint; its view is the constraint expression.
#[derive(Debug)]
pub struct Check {
    expression: String,
}

impl View for Check {
    type V = Seq<char>;

    closed spec fn view(&self) -> Seq<char> {
        self.expression@
    }
}

impl Check {
    pub fn new(constraint: &str) -> (r: Self)
        ensures
            r@ == constraint@,
    {
        Self { expression: constraint.to_owned() }
    }

    pub fn to_text(&self) -> (r: String)
        ensures
            r@ == check_text(self@),
    {
        let mut sql = String::new();
        sql.append(" CHECK(");
        sql.append(self.expression.as_str());
        sql.append(") ");
        sql
    }
}

} // verus!
