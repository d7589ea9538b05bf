//! CREATE TRIGGER and DROP TRIGGER.
//!
//! The builder follows the grammar: timing (`TriggerNew`), then event
//! (`TriggerWithAction`), then table (`TriggerWithEvent`), then an optional
//! WHEN and at least one body statement (`TriggerWithTable`, `TriggerFull`).
use crate::text::{option_view, str_views};
use vstd::prelude::*;

verus! {

/// When the trigger fires relative to its event.
#[derive(Clone, Copy, Debug, PartialEq, Eq, Structural)]
pub enum Action {
    Before,
    After,
    InsteadOf,
}

impl Action {
    pub open spec fn keyword(self) -> Seq<char> {
        match self {
            Action::Before => "BEFORE"@,
            Action::After => "AFTER"@,
            Action::InsteadOf => "INSTEAD OF"@,
        }
    }

    pub fn to_str(&self) -> (r: &'static str)
        ensures
            r@ == self.keyword(),
    {
        match self {
            Action::Before => "BEFORE",
            Action::After => "AFTER",
            Action::InsteadOf => "INSTEAD OF",
        }
    }
}

/// The statement kind that fires the trigger.
#[derive(Clone, Copy, Debug, PartialEq, Eq, Structural)]
pub enum Event {
    Insert,
    Update,
    Delete,
}

impl Event {
    pub open spec fn keyword(self) -> Seq<char> {
        match self {
            Event::Insert => "INSERT"@,
            Event::Update => "UPDATE"@,
            Event::Delete => "DELETE"@,
        }
    }

    pub fn to_str(&self) -> (r: &'static str)
        ensures
            r@ == self.keyword(),
    {
        match self {
            Event::Insert => "INSERT",
            Event::Update => "UPDATE",
            Event::Delete => "DELETE",
        }
    }
}

/// Whether a trigger lasts beyond the connection that created it.
#[derive(Clone, Copy, Debug, PartialEq, Eq, Structural)]
pub enum TriggerType {
    Normal,
    Temporary,
}

impl TriggerType {
    /// What the type adds after `CREATE `.
    pub open spec fn prefix(self) -> Seq<char> {
        match self {
            TriggerType::Normal => Seq::empty(),
            TriggerType::Temporary => "TEMP "@,
        }
    }
}

/// What a CREATE TRIGGER statement holds.
pub struct TriggerState {
    pub name: Seq<char>,
    pub table: Seq<char>,
    pub action: Action,
    pub event: Event,
    /// Body statements in the order they were added.
    pub stmts: Seq<Seq<char>>,
    pub typ: TriggerType,
    pub when: Option<Seq<char>>,
}

/// The body: each statement on its own line, terminated by `;`.
pub open spec fn body_lines(stmts: Seq<Seq<char>>) -> Seq<char>
    decreases stmts.len(),
{
    if stmts.len() == 0 {
        Seq::empty()
    } else {
        body_lines(stmts.drop_last()) + stmts.last() + ";\n"@
    }
}

/// The WHEN line, absent when no condition was given.
pub open spec fn when_line(when: Option<Seq<char>>) -> Seq<char> {
    match when {
        Some(w) => "WHEN "@ + w + "\n"@,
        None => Seq::empty(),
    }
}

/// The header line of a CREATE TRIGGER statement, without its newline.
pub open spec fn trigger_header(t: TriggerState) -> Seq<char> {
    "CREATE "@ + t.typ.prefix() + "TRIGGER IF NOT EXISTS "@ + t.name + " "@ + t.action.keyword()
        + " "@ + t.event.keyword() + " ON "@ + t.table
}

/// The text of a CREATE TRIGGER statement: header, optional WHEN, BEGIN,
/// the body statements, END.
pub open spec fn trigger_text(t: TriggerState) -> Seq<char> {
    trigger_header(t) + "\n"@ + when_line(t.when) + "BEGIN\n"@ + body_lines(t.stmts) + "END;"@
}

/// A trigger with a WHEN condition and two body statements renders, in
/// order: the header line, the WHEN line, BEGIN, each statement on its own
/// line ending in `;` in the order added, and END.
pub proof fn lemma_trigger_layout(t: TriggerState)
    requires
        t.when is Some,
        t.stmts.len() == 2,
    ensures
        trigger_text(t) == trigger_header(t) + "\n"@ + "WHEN "@ + t.when->0 + "\n"@ + "BEGIN\n"@
            + t.stmts[0] + ";\n"@ + t.stmts[1] + ";\n"@ + "END;"@,
{
    let s = t.stmts;
    assert(s.drop_last().drop_last() =~= Seq::<Seq<char>>::empty());
    assert(body_lines(s.drop_last().drop_last()) =~= Seq::<char>::empty());
    assert(s.drop_last().last() == s[0]);
    assert(body_lines(s.drop_last()) =~= s[0] + ";\n"@);
    assert(trigger_text(t) =~= trigger_header(t) + "\n"@ + "WHEN "@ + t.when->0 + "\n"@
        + "BEGIN\n"@ + s[0] + ";\n"@ + s[1] + ";\n"@ + "END;"@);
}

#[derive(Debug, Clone)]
struct Trigger {
    name: String,
    table: String,
    action: Action,
    event: Event,
    stmts: Vec<String>,
    typ: TriggerType,
    when: Option<String>,
}

impl Trigger {
    spec fn state(self) -> TriggerState {
        TriggerState {
            name: self.name@,
            table: self.table@,
            action: self.action,
            event: self.event,
            stmts: self.stmts@.map_values(|s: String| s@),
            typ: self.typ,
            when: option_view(self.when),
        }
    }

    fn new(name: &str) -> (r: Self)
        ensures
            r.state() == (TriggerState {
                name: name@,
                table: Seq::empty(),
                action: Action::Before,
                event: Event::Insert,
                stmts: Seq::empty(),
                typ: TriggerType::Normal,
                when: None,
            }),
    {
        let r = Self {
            name: name.to_owned(),
            table: String::new(),
            action: Action::Before,
            event: Event::Insert,
            stmts: Vec::new(),
            typ: TriggerType::Normal,
            when: None,
        };
        assert(r.state().stmts =~= Seq::empty());
        r
    }

    fn on(&mut self, table: &str)
        ensures
            final(self).state() == (TriggerState { table: table@, ..old(self).state() }),
    {
        self.table = table.to_owned();
    }

    fn before(&mut self)
        ensures
            final(self).state() == (TriggerState { action: Action::Before, ..old(self).state() }),
    {
        self.action = Action::Before;
    }

    fn after(&mut self)
        ensures
            final(self).state() == (TriggerState { action: Action::After, ..old(self).state() }),
    {
        self.action = Action::After;
    }

    fn instead_of(&mut self)
        ensures
            final(self).state() == (TriggerState {
                action: Action::InsteadOf,
                ..old(self).state()
            }),
    {
        self.action = Action::InsteadOf;
    }

    fn insert(&mut self)
        ensures
            final(self).state() == (TriggerState { event: Event::Insert, ..old(self).state() }),
    {
        self.event = Event::Insert;
    }

    fn update(&mut self)
        ensures
            final(self).state() == (TriggerState { event: Event::Update, ..old(self).state() }),
    {
        self.event = Event::Update;
    }

    fn delete(&mut self)
        ensures
            final(self).state() == (TriggerState { event: Event::Delete, ..old(self).state() }),
    {
        self.event = Event::Delete;
    }

    fn temporary(&mut self)
        ensures
            final(self).state() == (TriggerState {
                typ: TriggerType::Temporary,
                ..old(self).state()
            }),
    {
        self.typ = TriggerType::Temporary;
    }

    fn statement(&mut self, stmt: &str)
        ensures
            final(self).state() == (TriggerState {
                stmts: old(self).state().stmts.push(stmt@),
                ..old(self).state()
            }),
    {
        self.stmts.push(stmt.to_owned());
        assert(self.state().stmts =~= old(self).state().stmts.push(stmt@));
    }

    fn statements(&mut self, stmts: &[&str])
        ensures
            final(self).state() == (TriggerState {
                stmts: old(self).state().stmts + str_views(stmts@),
                ..old(self).state()
            }),
    {
        let ghost start = self.state();
        let mut i: usize = 0;
        while i < stmts.len()
            invariant
                i <= stmts@.len(),
                self.state() == (TriggerState {
                    stmts: start.stmts + str_views(stmts@).take(i as int),
                    ..start
                }),
            decreases stmts@.len() - i,
        {
            let ghost before = self.state();
            self.statement(stmts[i]);
            i = i + 1;
            assert(start.stmts + str_views(stmts@).take(i as int) =~= before.stmts.push(
                stmts@[i - 1]@,
            ));
        }
        assert(str_views(stmts@).take(i as int) =~= str_views(stmts@));
    }

    fn when(&mut self, expr: &str)
        ensures
            final(self).state() == (TriggerState { when: Some(expr@), ..old(self).state() }),
    {
        self.when = Some(expr.to_owned());
    }

    fn to_text(&self) -> (r: String)
        ensures
            r@ == trigger_text(self.state()),
    {
        let ghost t = self.state();
        let mut sql = String::new();
        sql.append("CREATE ");
        match self.typ {
            TriggerType::Temporary => {
                sql.append("TEMP ");
            },
            TriggerType::Normal => {
                assert(sql@ =~= sql@ + t.typ.prefix());
            },
        }
        sql.append("TRIGGER IF NOT EXISTS ");
        sql.append(self.name.as_str());
        sql.append(" ");
        sql.append(self.action.to_str());
        sql.append(" ");
        sql.append(self.event.to_str());
        sql.append(" ON ");
        sql.append(self.table.as_str());
        sql.append("\n");
        let ghost head = sql@;
        if let Some(w) = &self.when {
            sql.append("WHEN ");
            sql.append(w.as_str());
            sql.append("\n");
            assert(sql@ =~= head + when_line(t.when));
        } else {
            assert(sql@ =~= head + when_line(t.when));
        }
        sql.append("BEGIN\n");
        let ghost before_body = sql@;
        let mut i: usize = 0;
        while i < self.stmts.len()
            invariant
                i <= self.stmts@.len(),
                t == self.state(),
                sql@ == before_body + body_lines(t.stmts.take(i as int)),
            decreases self.stmts@.len() - i,
        {
            proof {
                assert(t.stmts.take(i + 1).drop_last() =~= t.stmts.take(i as int));
            }
            sql.append(self.stmts[i].as_str());
            sql.append(";\n");
            i = i + 1;
            assert(sql@ =~= before_body + body_lines(t.stmts.take(i as int)));
        }
        assert(t.stmts.take(i as int) =~= t.stmts);
        sql.append("END;");
        sql
    }
}

/// A trigger before its timing is chosen; it may be made temporary.
pub struct TriggerNew(Trigger);

/// Timing chosen; the event comes next.
pub struct TriggerWithAction(Trigger);

/// Event chosen; the table comes next.
pub struct TriggerWithEvent(Trigger);

/// Table chosen; a WHEN condition may be given, then body statements.
pub struct TriggerWithTable(Trigger);

/// A trigger with at least one body statement; more may be added.
pub struct TriggerFull(Trigger);

impl View for TriggerNew {
    type V = TriggerState;

    closed spec fn view(&self) -> TriggerState {
        self.0.state()
    }
}

impl View for TriggerWithAction {
    type V = TriggerState;

    closed spec fn view(&self) -> TriggerState {
        self.0.state()
    }
}

impl View for TriggerWithEvent {
    type V = TriggerState;

    closed spec fn view(&self) -> TriggerState {
        self.0.state()
    }
}

impl View for TriggerWithTable {
    type V = TriggerState;

    closed spec fn view(&self) -> TriggerState {
        self.0.state()
    }
}

impl View for TriggerFull {
    type V = TriggerState;

    closed spec fn view(&self) -> TriggerState {
        self.0.state()
    }
}

impl TriggerNew {
    /// A trigger named `name`: not temporary, no table, no WHEN, no body.
    pub fn new(name: &str) -> (r: Self)
        ensures
            r@ == (TriggerState {
                name: name@,
                table: Seq::empty(),
                action: Action::Before,
                event: Event::Insert,
                stmts: Seq::empty(),
                typ: TriggerType::Normal,
                when: None,
            }),
    {
        Self(Trigger::new(name))
    }

    pub fn temporary(self) -> (r: Self)
        ensures
            r@ == (TriggerState { typ: TriggerType::Temporary, ..self@ }),
    {
        let mut t = self.0;
        t.temporary();
        Self(t)
    }

    pub fn after(self) -> (r: TriggerWithAction)
        ensures
            r@ == (TriggerState { action: Action::After, ..self@ }),
    {
        let mut t = self.0;
        t.after();
        TriggerWithAction(t)
    }

    pub fn before(self) -> (r: TriggerWithAction)
        ensures
            r@ == (TriggerState { action: Action::Before, ..self@ }),
    {
        let mut t = self.0;
        t.before();
        TriggerWithAction(t)
    }

    pub fn instead_of(self) -> (r: TriggerWithAction)
        ensures
            r@ == (TriggerState { action: Action::InsteadOf, ..self@ }),
    {
        let mut t = self.0;
        t.instead_of();
        TriggerWithAction(t)
    }
}

impl TriggerWithAction {
    pub fn delete(self) -> (r: TriggerWithEvent)
        ensures
            r@ == (TriggerState { event: Event::Delete, ..self@ }),
    {
        let mut t = self.0;
        t.delete();
        TriggerWithEvent(t)
    }

    pub fn insert(self) -> (r: TriggerWithEvent)
        ensures
            r@ == (TriggerState { event: Event::Insert, ..self@ }),
    {
        let mut t = self.0;
        t.insert();
        TriggerWithEvent(t)
    }

    pub fn update(self) -> (r: TriggerWithEvent)
        ensures
            r@ == (TriggerState { event: Event::Update, ..self@ }),
    {
        let mut t = self.0;
        t.update();
        TriggerWithEvent(t)
    }
}

impl TriggerWithEvent {
    pub fn on(self, table: &str) -> (r: TriggerWithTable)
        ensures
            r@ == (TriggerState { table: table@, ..self@ }),
    {
        let mut t = self.0;
        t.on(table);
        TriggerWithTable(t)
    }
}

impl TriggerWithTable {
    pub fn when(self, expr: &str) -> (r: Self)
        ensures
            r@ == (TriggerState { when: Some(expr@), ..self@ }),
    {
        let mut t = self.0;
        t.when(expr);
        Self(t)
    }

    pub fn statement(self, stmt: &str) -> (r: TriggerFull)
        ensures
            r@ == (TriggerState { stmts: self@.stmts.push(stmt@), ..self@ }),
    {
        let mut t = self.0;
        t.statement(stmt);
        TriggerFull(t)
    }

    pub fn statements(self, stmts: &[&str]) -> (r: TriggerFull)
        ensures
            r@ == (TriggerState { stmts: self@.stmts + str_views(stmts@), ..self@ }),
    {
        let mut t = self.0;
        t.statements(stmts);
        TriggerFull(t)
    }
}

impl TriggerFull {
    pub fn statement(self, stmt: &str) -> (r: Self)
        ensures
            r@ == (TriggerState { stmts: self@.stmts.push(stmt@), ..self@ }),
    {
        let mut t = self.0;
        t.statement(stmt);
        Self(t)
    }

    pub fn statements(self, stmts: &[&str]) -> (r: Self)
        ensures
            r@ == (TriggerState { stmts: self@.stmts + str_views(stmts@), ..self@ }),
    {
        let mut t = self.0;
        t.statements(stmts);
        Self(t)
    }

    pub fn to_text(&self) -> (r: String)
        ensures
            r@ == trigger_text(self@),
    {
        self.0.to_text()
    }
}

/// A DROP TRIGGER statement; its view is the trigger name.
pub struct TriggerDrop(String);

impl View for TriggerDrop {
    type V = Seq<char>;

    closed spec fn view(&self) -> Seq<char> {
        self.0@
    }
}

impl TriggerDrop {
    fn new(name: &str) -> (r: Self)
        ensures
            r@ == name@,
    {
        Self(name.to_owned())
    }

    pub fn to_text(&self) -> (r: String)
        ensures
            r@ == "DROP TRIGGER IF EXISTS "@ + self@ + ";"@,
    {
        let mut sql = String::new();
        sql.append("DROP TRIGGER IF EXISTS ");
        sql.append(self.0.as_str());
        sql.append(";");
        sql
    }
}

pub fn create_trigger(name: &str) -> (r: TriggerNew)
    ensures
        r@ == (TriggerState {
            name: name@,
            table: Seq::empty(),
            action: Action::Before,
            event: Event::Insert,
            stmts: Seq::empty(),
            typ: TriggerType::Normal,
            when: None,
        }),
{
    TriggerNew::new(name)
}

pub fn drop_trigger(name: &str) -> (r: TriggerDrop)
    ensures
        r@ == name@,
{
    TriggerDrop::new(name)
}

} // verus!
