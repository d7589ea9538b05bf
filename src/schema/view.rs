//! CREATE VIEW and DROP VIEW.
use crate::text::{join_strings, joined, string_views, str_views};
use vstd::prelude::*;

verus! {

/// Whether a view lasts beyond the connection that created it.
#[derive(Clone, Copy, Debug, PartialEq, Eq, Structural)]
pub enum ViewType {
    Temporary,
    Normal,
}

impl ViewType {
    /// What the type adds after `CREATE `.
    pub open spec fn prefix(self) -> Seq<char> {
        match self {
            ViewType::Temporary => "TEMP "@,
            ViewType::Normal => Seq::empty(),
        }
    }
}

/// What a CREATE VIEW statement holds.
pub struct ViewState {
    pub name: Seq<char>,
    pub select: Seq<char>,
    pub typ: ViewType,
    /// Column aliases in the order they were added.
    pub columns: Seq<Seq<char>>,
}

/// The parenthesised alias list, absent when there are no aliases.
pub open spec fn alias_list(columns: Seq<Seq<char>>) -> Seq<char> {
    if columns.len() == 0 {
        Seq::empty()
    } else {
        "("@ + joined(columns, ", "@) + ")"@
    }
}

/// The text of a CREATE VIEW statement.
pub open spec fn view_text(v: ViewState) -> Seq<char> {
    "CREATE "@ + v.typ.prefix() + "VIEW IF NOT EXISTS "@ + v.name + alias_list(v.columns) + " AS "@
        + v.select + ";"@
}

/// A CREATE VIEW statement under construction, changed in place.
#[derive(Debug, Clone)]
pub struct ViewCreate {
    name: String,
    select: String,
    typ: ViewType,
    columns: Vec<String>,
}

impl View for ViewCreate {
    type V = ViewState;

    closed spec fn view(&self) -> ViewState {
        ViewState {
            name: self.name@,
            select: self.select@,
            typ: self.typ,
            columns: string_views(self.columns@),
        }
    }
}

impl ViewCreate {
    pub fn new(name: &str) -> (r: Self)
        ensures
            r@ == (ViewState {
                name: name@,
                select: Seq::empty(),
                typ: ViewType::Normal,
                columns: Seq::empty(),
            }),
    {
        let r = Self {
            name: name.to_owned(),
            select: String::new(),
            typ: ViewType::Normal,
            columns: Vec::new(),
        };
        assert(r@.columns =~= Seq::empty());
        r
    }

    pub fn column(&mut self, col: &str)
        ensures
            final(self)@ == (ViewState { columns: old(self)@.columns.push(col@), ..old(self)@ }),
    {
        self.columns.push(col.to_owned());
        assert(self@.columns =~= old(self)@.columns.push(col@));
    }

    pub fn columns(&mut self, cols: &[&str])
        ensures
            final(self)@ == (ViewState {
                columns: old(self)@.columns + str_views(cols@),
                ..old(self)@
            }),
    {
        let ghost start = self@;
        let mut i: usize = 0;
        while i < cols.len()
            invariant
                i <= cols@.len(),
                self@ == (ViewState {
                    columns: start.columns + str_views(cols@).take(i as int),
                    ..start
                }),
            decreases cols@.len() - i,
        {
            let ghost before = self@;
            self.columns.push(cols[i].to_owned());
            assert(self@.columns =~= before.columns.push(cols@[i as int]@));
            i = i + 1;
            assert(start.columns + str_views(cols@).take(i as int) =~= before.columns.push(
                cols@[i - 1]@,
            ));
        }
        assert(str_views(cols@).take(i as int) =~= str_views(cols@));
    }

    pub fn as_(&mut self, query: &str)
        ensures
            final(self)@ == (ViewState { select: query@, ..old(self)@ }),
    {
        self.select = query.to_owned();
    }

    pub fn temporary(&mut self)
        ensures
            final(self)@ == (ViewState { typ: ViewType::Temporary, ..old(self)@ }),
    {
        self.typ = ViewType::Temporary;
    }

    pub fn to_text(&self) -> (r: String)
        ensures
            r@ == view_text(self@),
    {
        let ghost v = self@;
        let mut sql = String::new();
        sql.append("CREATE ");
        match self.typ {
            ViewType::Temporary => {
                sql.append("TEMP ");
            },
            ViewType::Normal => {
                assert(sql@ =~= sql@ + v.typ.prefix());
            },
        }
        sql.append("VIEW IF NOT EXISTS ");
        sql.append(self.name.as_str());
        let ghost head = sql@;
        if self.columns.len() > 0 {
            sql.append("(");
            let list = join_strings(&self.columns, ", ");
            sql.append(list.as_str());
            sql.append(")");
            assert(sql@ =~= head + alias_list(v.columns));
        } else {
            assert(sql@ =~= head + alias_list(v.columns));
        }
        sql.append(" AS ");
        sql.append(self.select.as_str());
        sql.append(";");
        sql
    }
}

/// CREATE VIEW before its query is given: type and aliases may be set.
#[derive(Debug, Clone)]
pub struct ViewCreateDef(ViewCreate);

/// A complete CREATE VIEW statement.
#[derive(Debug)]
pub struct ViewCreateStmt(ViewCreate);

impl View for ViewCreateDef {
    type V = ViewState;

    closed spec fn view(&self) -> ViewState {
        self.0@
    }
}

impl View for ViewCreateStmt {
    type V = ViewState;

    closed spec fn view(&self) -> ViewState {
        self.0@
    }
}

impl ViewCreateDef {
    fn new(name: &str) -> (r: Self)
        ensures
            r@ == (ViewState {
                name: name@,
                select: Seq::empty(),
                typ: ViewType::Normal,
                columns: Seq::empty(),
            }),
    {
        Self(ViewCreate::new(name))
    }

    pub fn temporary(self) -> (r: Self)
        ensures
            r@ == (ViewState { typ: ViewType::Temporary, ..self@ }),
    {
        let mut v = self.0;
        v.temporary();
        Self(v)
    }

    pub fn column(self, col: &str) -> (r: Self)
        ensures
            r@ == (ViewState { columns: self@.columns.push(col@), ..self@ }),
    {
        let mut v = self.0;
        v.column(col);
        Self(v)
    }

    pub fn columns(self, cols: &[&str]) -> (r: Self)
        ensures
            r@ == (ViewState { columns: self@.columns + str_views(cols@), ..self@ }),
    {
        let mut v = self.0;
        v.columns(cols);
        Self(v)
    }

    pub fn as_(self, query: &str) -> (r: ViewCreateStmt)
        ensures
            r@ == (ViewState { select: query@, ..self@ }),
    {
        let mut v = self.0;
        v.as_(query);
        ViewCreateStmt(v)
    }
}

impl ViewCreateStmt {
    pub fn typ_(&self) -> (r: ViewType)
        ensures
            r == self@.typ,
    {
        self.0.typ
    }

    pub fn name(&self) -> (r: &str)
        ensures
            r@ == self@.name,
    {
        self.0.name.as_str()
    }

    pub fn columns(&self) -> (r: &[String])
        ensures
            string_views(r@) == self@.columns,
    {
        self.0.columns.as_slice()
    }

    pub fn to_text(&self) -> (r: String)
        ensures
            r@ == view_text(self@),
    {
        self.0.to_text()
    }
}

/// A DROP VIEW statement; its view is the view name.
#[derive(Debug)]
pub struct ViewDrop(String);

impl View for ViewDrop {
    type V = Seq<char>;

    closed spec fn view(&self) -> Seq<char> {
        self.0@
    }
}

impl ViewDrop {
    pub fn to_text(&self) -> (r: String)
        ensures
            r@ == "DROP VIEW IF EXISTS "@ + self@ + ";"@,
    {
        let mut sql = String::new();
        sql.append("DROP VIEW IF EXISTS ");
        sql.append(self.0.as_str());
        sql.append(";");
        sql
    }
}

/// Starts a CREATE VIEW: not temporary, no aliases, no query yet.
pub fn create_view(name: &str) -> (r: ViewCreateDef)
    ensures
        r@ == (ViewState {
            name: name@,
            select: Seq::empty(),
            typ: ViewType::Normal,
            columns: Seq::empty(),
        }),
{
    ViewCreateDef::new(name)
}

pub fn drop_view(name: &str) -> (r: ViewDrop)
    ensures
        r@ == name@,
{
    ViewDrop(name.to_owned())
}

} // verus!
