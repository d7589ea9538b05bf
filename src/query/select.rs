//! SELECT statements.
//!
//! The builder is a chain of stage types over one record: `SelectQuery`
//! (projection, table, DISTINCT, LIMIT, OFFSET), `WhereQuery`, `GroupQuery`,
//! `HavingQuery` and `OrderByQuery`. Each stage offers only the clauses that
//! may still follow, and every stage renders the whole record with the same
//! fixed clause order.
use crate::text::{
    conjoined, decimal, decimal_text, disjoined, join_strings, join_strs, joined, option_view, optional_section,
    push_and, push_optional_section, push_or, push_section, section, str_views, string_views,
};
use vstd::prelude::*;

verus! {

/// Direction of one ORDER BY key.
#[derive(Clone, Copy, Debug, PartialEq, Eq, Structural)]
pub enum SortOrder {
    Asc,
    Desc,
}

impl SortOrder {
    /// The keyword that renders this direction.
    pub open spec fn keyword(self) -> Seq<char> {
        match self {
            SortOrder::Asc => "ASC"@,
            SortOrder::Desc => "DESC"@,
        }
    }

    pub fn to_str(&self) -> (r: &'static str)
        ensures
            r@ == self.keyword(),
    {
        match self {
            SortOrder::Asc => "ASC",
            SortOrder::Desc => "DESC",
        }
    }
}

/// What a SELECT statement under construction holds.
pub struct QueryState {
    /// The projection, already joined with `", "`.
    pub select: Seq<char>,
    pub from: Seq<char>,
    pub where_: Seq<char>,
    pub group_by: Seq<char>,
    pub having: Seq<char>,
    /// Sort keys in the order they were added, each with its direction.
    pub sort_by: Seq<(Seq<char>, SortOrder)>,
    pub distinct: bool,
    /// `Some("?")` stands for a value supplied later.
    pub limit: Option<Seq<char>>,
    pub offset: Option<Seq<char>>,
}

/// The text a LIMIT or OFFSET value renders to: the number, or `?` for none.
pub open spec fn amount_text(value: Option<u32>) -> Seq<char> {
    match value {
        Some(n) => decimal(n as nat),
        None => "?"@,
    }
}

/// One ORDER BY key as it is rendered.
pub open spec fn sort_key_text(key: (Seq<char>, SortOrder)) -> Seq<char> {
    key.0 + " "@ + key.1.keyword()
}

/// The rendered sort keys, in order.
pub open spec fn sort_keys_text(keys: Seq<(Seq<char>, SortOrder)>) -> Seq<Seq<char>> {
    keys.map_values(|k: (Seq<char>, SortOrder)| sort_key_text(k))
}

/// The ORDER BY clause, absent when there are no keys.
pub open spec fn order_section(keys: Seq<(Seq<char>, SortOrder)>) -> Seq<char> {
    if keys.len() == 0 {
        Seq::empty()
    } else {
        " ORDER BY "@ + joined(sort_keys_text(keys), ", "@)
    }
}

/// The SQL text of a SELECT statement: clauses always in the order SELECT,
/// FROM, WHERE, GROUP BY, HAVING, ORDER BY, LIMIT, OFFSET, empty ones left out.
pub open spec fn query_text(q: QueryState) -> Seq<char> {
    "SELECT"@ + (if q.distinct {
        " DISTINCT"@
    } else {
        Seq::empty()
    }) + " "@ + q.select + section(" FROM "@, q.from) + section(" WHERE "@, q.where_) + section(
        " GROUP BY "@,
        q.group_by,
    ) + section(" HAVING "@, q.having) + order_section(q.sort_by) + optional_section(
        " LIMIT "@,
        q.limit,
    ) + optional_section(" OFFSET "@, q.offset)
}

impl QueryState {
    /// A statement that projects `select` and has no other clause yet.
    pub open spec fn fresh(select: Seq<char>) -> QueryState {
        QueryState {
            select,
            from: Seq::empty(),
            where_: Seq::empty(),
            group_by: Seq::empty(),
            having: Seq::empty(),
            sort_by: Seq::empty(),
            distinct: false,
            limit: None,
            offset: None,
        }
    }

    pub open spec fn with_from(self, table: Seq<char>) -> QueryState {
        QueryState { from: table, ..self }
    }

    pub open spec fn with_distinct(self) -> QueryState {
        QueryState { distinct: true, ..self }
    }

    pub open spec fn with_limit(self, value: Option<u32>) -> QueryState {
        QueryState { limit: Some(amount_text(value)), ..self }
    }

    pub open spec fn with_offset(self, value: Option<u32>) -> QueryState {
        QueryState { offset: Some(amount_text(value)), ..self }
    }

    pub open spec fn with_where(self, cond: Seq<char>) -> QueryState {
        QueryState { where_: cond, ..self }
    }

    pub open spec fn where_and(self, cond: Seq<char>) -> QueryState {
        QueryState { where_: conjoined(self.where_, cond), ..self }
    }

    pub open spec fn where_or(self, cond: Seq<char>) -> QueryState {
        QueryState { where_: disjoined(self.where_, cond), ..self }
    }

    pub open spec fn with_group_by(self, fields: Seq<char>) -> QueryState {
        QueryState { group_by: fields, ..self }
    }

    pub open spec fn with_having(self, cond: Seq<char>) -> QueryState {
        QueryState { having: cond, ..self }
    }

    pub open spec fn having_and(self, cond: Seq<char>) -> QueryState {
        QueryState { having: conjoined(self.having, cond), ..self }
    }

    pub open spec fn having_or(self, cond: Seq<char>) -> QueryState {
        QueryState { having: disjoined(self.having, cond), ..self }
    }

    /// A new ascending sort key after the existing ones.
    pub open spec fn sorted_by(self, field: Seq<char>) -> QueryState {
        QueryState { sort_by: self.sort_by.push((field, SortOrder::Asc)), ..self }
    }

    /// The most recently added sort key, if any, set to `order`.
    pub open spec fn last_ordered(self, order: SortOrder) -> QueryState {
        if self.sort_by.len() == 0 {
            self
        } else {
            QueryState {
                sort_by: self.sort_by.update(
                    self.sort_by.len() - 1,
                    (self.sort_by.last().0, order),
                ),
                ..self
            }
        }
    }
}

#[derive(Debug, Clone)]
struct SortBy {
    field: String,
    order: SortOrder,
}

impl SortBy {
    spec fn model(self) -> (Seq<char>, SortOrder) {
        (self.field@, self.order)
    }

    fn to_text(&self) -> (r: String)
        ensures
            r@ == sort_key_text(self.model()),
    {
        let mut r = String::new();
        r.append(self.field.as_str());
        r.append(" ");
        r.append(self.order.to_str());
        r
    }
}

#[derive(Debug, Clone)]
struct RawQuery {
    select: String,
    from: String,
    sort_by: Vec<SortBy>,
    group_by: String,
    having: String,
    where_: String,
    distinct: bool,
    limit: Option<String>,
    offset: Option<String>,
}

fn amount(value: Option<u32>) -> (r: String)
    ensures
        r@ == amount_text(value),
{
    match value {
        Some(v) => decimal_text(v),
        None => "?".to_owned(),
    }
}

impl RawQuery {
    spec fn state(self) -> QueryState {
        QueryState {
            select: self.select@,
            from: self.from@,
            where_: self.where_@,
            group_by: self.group_by@,
            having: self.having@,
            sort_by: self.sort_by@.map_values(|k: SortBy| k.model()),
            distinct: self.distinct,
            limit: option_view(self.limit),
            offset: option_view(self.offset),
        }
    }

    fn new() -> (r: Self)
        ensures
            r.state() == QueryState::fresh(Seq::empty()),
    {
        let r = Self {
            select: String::new(),
            from: String::new(),
            sort_by: Vec::new(),
            group_by: String::new(),
            having: String::new(),
            where_: String::new(),
            distinct: false,
            limit: None,
            offset: None,
        };
        assert(r.state().sort_by =~= Seq::empty());
        r
    }

    fn push_sort(&mut self, field: &str)
        ensures
            final(self).state() == old(self).state().sorted_by(field@),
    {
        self.sort_by.push(SortBy { field: field.to_owned(), order: SortOrder::Asc });
        assert(self.state().sort_by =~= old(self).state().sorted_by(field@).sort_by);
    }

    fn set_last_order(&mut self, order: SortOrder)
        ensures
            final(self).state() == old(self).state().last_ordered(order),
    {
        if let Some(mut last) = self.sort_by.pop() {
            last.order = order;
            self.sort_by.push(last);
            assert(self.state().sort_by =~= old(self).state().last_ordered(order).sort_by);
        }
    }

    fn order_keys(&self) -> (r: String)
        ensures
            r@ == joined(sort_keys_text(self.state().sort_by), ", "@),
    {
        let ghost keys = self.state().sort_by;
        let mut texts: Vec<String> = Vec::new();
        let mut i: usize = 0;
        while i < self.sort_by.len()
            invariant
                i <= self.sort_by@.len(),
                keys == self.state().sort_by,
                texts@.len() == i,
                forall|j: int| 0 <= j < i ==> #[trigger] texts@[j]@ == sort_key_text(keys[j]),
            decreases self.sort_by@.len() - i,
        {
            let t = self.sort_by[i].to_text();
            texts.push(t);
            i = i + 1;
        }
        assert(string_views(texts@) =~= sort_keys_text(keys));
        join_strings(&texts, ", ")
    }

    fn to_text(&self) -> (r: String)
        ensures
            r@ == query_text(self.state()),
    {
        let ghost q = self.state();
        let mut sql = String::new();
        sql.append("SELECT");
        if self.distinct {
            sql.append(" DISTINCT");
        } else {
            assert(sql@ =~= sql@ + Seq::<char>::empty());
        }
        sql.append(" ");
        sql.append(self.select.as_str());
        push_section(&mut sql, " FROM ", self.from.as_str());
        push_section(&mut sql, " WHERE ", self.where_.as_str());
        push_section(&mut sql, " GROUP BY ", self.group_by.as_str());
        push_section(&mut sql, " HAVING ", self.having.as_str());
        let ghost head = sql@;
        if self.sort_by.len() > 0 {
            sql.append(" ORDER BY ");
            let keys = self.order_keys();
            sql.append(keys.as_str());
            assert(sql@ =~= head + order_section(q.sort_by));
        } else {
            assert(sql@ =~= head + order_section(q.sort_by));
        }
        push_optional_section(&mut sql, " LIMIT ", option_str(&self.limit));
        push_optional_section(&mut sql, " OFFSET ", option_str(&self.offset));
        sql
    }
}

fn option_str(o: &Option<String>) -> (r: Option<&str>)
    ensures
        match r {
            Some(s) => option_view(*o) == Some(s@),
            None => option_view(*o) == None::<Seq<char>>,
        },
{
    match o {
        Some(s) => Some(s.as_str()),
        None => None,
    }
}

/// First stage: projection chosen; table, DISTINCT, LIMIT and OFFSET may be set.
#[derive(Debug, Clone)]
pub struct SelectQuery(RawQuery);

/// After ORDER BY: more sort keys, or a direction for the last one.
#[derive(Debug, Clone)]
pub struct OrderByQuery(RawQuery);

/// After WHERE: the predicate may be extended, then GROUP BY or ORDER BY.
#[derive(Debug, Clone)]
pub struct WhereQuery(RawQuery);

/// After GROUP BY: HAVING or ORDER BY.
#[derive(Debug, Clone)]
pub struct GroupQuery(RawQuery);

/// After HAVING: the predicate may be extended, then ORDER BY.
#[derive(Debug, Clone)]
pub struct HavingQuery(RawQuery);

/// A statement that takes no further clause.
#[derive(Debug, Clone)]
pub struct FinalQuery(RawQuery);

impl View for SelectQuery {
    type V = QueryState;

    closed spec fn view(&self) -> QueryState {
        self.0.state()
    }
}

impl View for OrderByQuery {
    type V = QueryState;

    closed spec fn view(&self) -> QueryState {
        self.0.state()
    }
}

impl View for WhereQuery {
    type V = QueryState;

    closed spec fn view(&self) -> QueryState {
        self.0.state()
    }
}

impl View for GroupQuery {
    type V = QueryState;

    closed spec fn view(&self) -> QueryState {
        self.0.state()
    }
}

impl View for HavingQuery {
    type V = QueryState;

    closed spec fn view(&self) -> QueryState {
        self.0.state()
    }
}

impl View for FinalQuery {
    type V = QueryState;

    closed spec fn view(&self) -> QueryState {
        self.0.state()
    }
}

/// Starts a SELECT of `fields`, joined with `", "`.
pub fn select(fields: &[&str]) -> (r: SelectQuery)
    ensures
        r@ == QueryState::fresh(joined(str_views(fields@), ", "@)),
{
    let mut query = RawQuery::new();
    query.select = join_strs(fields, ", ");
    SelectQuery(query)
}

impl SelectQuery {
    pub fn from(self, table: &str) -> (r: Self)
        ensures
            r@ == self@.with_from(table@),
    {
        let mut raw = self.0;
        raw.from = table.to_owned();
        Self(raw)
    }

    pub fn order_by(self, field: &str) -> (r: OrderByQuery)
        ensures
            r@ == self@.sorted_by(field@),
    {
        let mut raw = self.0;
        raw.push_sort(field);
        OrderByQuery(raw)
    }

    /// Requests a LIMIT; `None` renders the placeholder `?`.
    pub fn limit(self, value: Option<u32>) -> (r: Self)
        ensures
            r@ == self@.with_limit(value),
    {
        let mut raw = self.0;
        raw.limit = Some(amount(value));
        Self(raw)
    }

    pub fn distinct(self) -> (r: Self)
        ensures
            r@ == self@.with_distinct(),
    {
        let mut raw = self.0;
        raw.distinct = true;
        Self(raw)
    }

    /// Requests an OFFSET; `None` renders the placeholder `?`.
    pub fn offset(self, value: Option<u32>) -> (r: Self)
        ensures
            r@ == self@.with_offset(value),
    {
        let mut raw = self.0;
        raw.offset = Some(amount(value));
        Self(raw)
    }

    pub fn where_(self, cond: &str) -> (r: WhereQuery)
        ensures
            r@ == self@.with_where(cond@),
    {
        let mut raw = self.0;
        raw.where_ = cond.to_owned();
        WhereQuery(raw)
    }

    pub fn group_by(self, fields: &[&str]) -> (r: GroupQuery)
        ensures
            r@ == self@.with_group_by(joined(str_views(fields@), ", "@)),
    {
        let mut raw = self.0;
        raw.group_by = join_strs(fields, ", ");
        GroupQuery(raw)
    }

    pub fn to_text(&self) -> (r: String)
        ensures
            r@ == query_text(self@),
    {
        self.0.to_text()
    }
}

impl WhereQuery {
    pub fn and(self, cond: &str) -> (r: Self)
        ensures
            r@ == self@.where_and(cond@),
    {
        let mut raw = self.0;
        push_and(&mut raw.where_, cond);
        Self(raw)
    }

    pub fn or(self, cond: &str) -> (r: Self)
        ensures
            r@ == self@.where_or(cond@),
    {
        let mut raw = self.0;
        push_or(&mut raw.where_, cond);
        Self(raw)
    }

    pub fn order_by(self, field: &str) -> (r: OrderByQuery)
        ensures
            r@ == self@.sorted_by(field@),
    {
        let mut raw = self.0;
        raw.push_sort(field);
        OrderByQuery(raw)
    }

    pub fn group_by(self, fields: &[&str]) -> (r: GroupQuery)
        ensures
            r@ == self@.with_group_by(joined(str_views(fields@), ", "@)),
    {
        let mut raw = self.0;
        raw.group_by = join_strs(fields, ", ");
        GroupQuery(raw)
    }

    pub fn to_text(&self) -> (r: String)
        ensures
            r@ == query_text(self@),
    {
        self.0.to_text()
    }
}

impl OrderByQuery {
    /// Makes the most recently added sort key ascending.
    pub fn asc(self) -> (r: OrderByQuery)
        ensures
            r@ == self@.last_ordered(SortOrder::Asc),
    {
        let mut raw = self.0;
        raw.set_last_order(SortOrder::Asc);
        Self(raw)
    }

    /// Makes the most recently added sort key descending.
    pub fn desc(self) -> (r: OrderByQuery)
        ensures
            r@ == self@.last_ordered(SortOrder::Desc),
    {
        let mut raw = self.0;
        raw.set_last_order(SortOrder::Desc);
        Self(raw)
    }

    pub fn order_by(self, field: &str) -> (r: Self)
        ensures
            r@ == self@.sorted_by(field@),
    {
        let mut raw = self.0;
        raw.push_sort(field);
        Self(raw)
    }

    pub fn to_text(&self) -> (r: String)
        ensures
            r@ == query_text(self@),
    {
        self.0.to_text()
    }
}

impl GroupQuery {
    pub fn order_by(self, field: &str) -> (r: OrderByQuery)
        ensures
            r@ == self@.sorted_by(field@),
    {
        let mut raw = self.0;
        raw.push_sort(field);
        OrderByQuery(raw)
    }

    pub fn having(self, cond: &str) -> (r: HavingQuery)
        ensures
            r@ == self@.with_having(cond@),
    {
        let mut raw = self.0;
        raw.having = cond.to_owned();
        HavingQuery(raw)
    }

    pub fn to_text(&self) -> (r: String)
        ensures
            r@ == query_text(self@),
    {
        self.0.to_text()
    }
}

impl HavingQuery {
    pub fn and(self, cond: &str) -> (r: Self)
        ensures
            r@ == self@.having_and(cond@),
    {
        let mut raw = self.0;
        push_and(&mut raw.having, cond);
        Self(raw)
    }

    pub fn or(self, cond: &str) -> (r: Self)
        ensures
            r@ == self@.having_or(cond@),
    {
        let mut raw = self.0;
        push_or(&mut raw.having, cond);
        Self(raw)
    }

    pub fn order_by(self, field: &str) -> (r: OrderByQuery)
        ensures
            r@ == self@.sorted_by(field@),
    {
        let mut raw = self.0;
        raw.push_sort(field);
        OrderByQuery(raw)
    }

    pub fn to_text(&self) -> (r: String)
        ensures
            r@ == query_text(self@),
    {
        self.0.to_text()
    }
}

impl FinalQuery {
    pub fn to_text(&self) -> (r: String)
        ensures
            r@ == query_text(self@),
    {
        self.0.to_text()
    }
}

/// FROM, DISTINCT, LIMIT and OFFSET may be attached in any order: each sets
/// its own part of the statement, so two of them taken either way round give
/// the same statement and therefore the same text.
pub proof fn lemma_first_stage_order_free(
    q: QueryState,
    table: Seq<char>,
    limit: Option<u32>,
    offset: Option<u32>,
)
    ensures
        q.with_limit(limit).with_from(table) == q.with_from(table).with_limit(limit),
        q.with_offset(offset).with_from(table) == q.with_from(table).with_offset(offset),
        q.with_distinct().with_from(table) == q.with_from(table).with_distinct(),
        q.with_offset(offset).with_limit(limit) == q.with_limit(limit).with_offset(offset),
        q.with_distinct().with_limit(limit) == q.with_limit(limit).with_distinct(),
        q.with_distinct().with_offset(offset) == q.with_offset(offset).with_distinct(),
        query_text(q.with_offset(offset).with_limit(limit).with_distinct().with_from(table))
            == query_text(q.with_from(table).with_distinct().with_limit(limit).with_offset(offset)),
{
}

/// Of two directions set in a row on the newest sort key the second wins,
/// and the keys added before it keep their own directions; a key set to
/// descending renders as the field followed by ` DESC`.
pub proof fn lemma_last_direction_wins(
    q: QueryState,
    field: Seq<char>,
    first: SortOrder,
    second: SortOrder,
)
    ensures
        q.sorted_by(field).last_ordered(first).last_ordered(second) == q.sorted_by(
            field,
        ).last_ordered(second),
        q.sorted_by(field).last_ordered(second).sort_by == q.sort_by.push((field, second)),
        sort_key_text((field, SortOrder::Desc)) == field + " DESC"@,
{
    let a = q.sorted_by(field).last_ordered(first).last_ordered(second);
    let b = q.sorted_by(field).last_ordered(second);
    assert(a.sort_by =~= b.sort_by);
    assert(b.sort_by =~= q.sort_by.push((field, second)));
    reveal_strlit(" ");
    reveal_strlit("DESC");
    reveal_strlit(" DESC");
    assert(" "@ + "DESC"@ =~= " DESC"@);
}

/// `AND` and `OR` append to the predicate from left to right, with no
/// grouping added, in WHERE and in HAVING alike.
pub proof fn lemma_predicates_append_in_order(
    q: QueryState,
    p: Seq<char>,
    c1: Seq<char>,
    c2: Seq<char>,
)
    ensures
        q.with_where(p).where_and(c1).where_or(c2).where_ == p + " AND "@ + c1 + " OR "@ + c2,
        section(" WHERE "@, q.with_where(p).where_and(c1).where_or(c2).where_) == " WHERE "@ + p
            + " AND "@ + c1 + " OR "@ + c2,
        q.with_having(p).having_and(c1).having_or(c2).having == p + " AND "@ + c1 + " OR "@ + c2,
        section(" HAVING "@, q.with_having(p).having_and(c1).having_or(c2).having) == " HAVING "@
            + p + " AND "@ + c1 + " OR "@ + c2,
{
    reveal_strlit(" AND ");
    let w = p + " AND "@ + c1 + " OR "@ + c2;
    assert(w.len() > 0);
    assert(" WHERE "@ + w =~= " WHERE "@ + p + " AND "@ + c1 + " OR "@ + c2);
    assert(" HAVING "@ + w =~= " HAVING "@ + p + " AND "@ + c1 + " OR "@ + c2);
}

/// LIMIT and OFFSET are rendered whenever they were requested: without a
/// value as the placeholder `?`, with one as its decimal digits.
pub proof fn lemma_requested_amounts_rendered(q: QueryState, n: u32)
    ensures
        optional_section(" LIMIT "@, q.with_limit(None).limit) == " LIMIT ?"@,
        optional_section(" LIMIT "@, q.with_limit(Some(n)).limit) == " LIMIT "@ + decimal(n as nat),
        optional_section(" OFFSET "@, q.with_offset(None).offset) == " OFFSET ?"@,
        optional_section(" OFFSET "@, q.with_offset(Some(n)).offset) == " OFFSET "@ + decimal(
            n as nat,
        ),
{
    reveal_strlit(" LIMIT ");
    reveal_strlit(" LIMIT ?");
    reveal_strlit(" OFFSET ");
    reveal_strlit(" OFFSET ?");
    reveal_strlit("?");
    assert(" LIMIT "@ + "?"@ =~= " LIMIT ?"@);
    assert(" OFFSET "@ + "?"@ =~= " OFFSET ?"@);
}

} // verus!
