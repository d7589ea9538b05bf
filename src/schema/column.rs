//! Column definitions for CREATE TABLE and ALTER TABLE ADD COLUMN.
use crate::text::option_view;
use vstd::prelude::*;

verus! {

/// Storage type of a column.
#[derive(Clone, Copy, Debug, PartialEq, Eq, Structural)]
pub enum ColumnType {
    Integer,
    Real,
    Text,
    Blob,
}

impl ColumnType {
    pub open spec fn keyword(self) -> Seq<char> {
        match self {
            ColumnType::Integer => "INTEGER"@,
            ColumnType::Real => "REAL"@,
            ColumnType::Text => "TEXT"@,
            ColumnType::Blob => "BLOB"@,
        }
    }

    pub fn to_str(&self) -> (r: &'static str)
        ensures
            r@ == self.keyword(),
    {
        match self {
            ColumnType::Integer => "INTEGER",
            ColumnType::Real => "REAL",
            ColumnType::Text => "TEXT",
            ColumnType::Blob => "BLOB",
        }
    }
}

/// Whether a generated column is computed on read or stored on write.
#[derive(Clone, Copy, Debug, PartialEq, Eq, Structural)]
pub enum GeneratedColumnType {
    Virtual,
    Stored,
}

impl GeneratedColumnType {
    pub open spec fn keyword(self) -> Seq<char> {
        match self {
            GeneratedColumnType::Virtual => "VIRTUAL"@,
            GeneratedColumnType::Stored => "STORED"@,
        }
    }

    pub fn to_str(&self) -> (r: &'static str)
        ensures
            r@ == self.keyword(),
    {
        match self {
            GeneratedColumnType::Virtual => "VIRTUAL",
            GeneratedColumnType::Stored => "STORED",
        }
    }
}

/// What a column definition holds.
pub struct ColumnState {
    pub name: Seq<char>,
    pub typ: ColumnType,
    pub not_null: bool,
    pub unique: bool,
    pub primary_key: bool,
    pub check: Option<Seq<char>>,
    pub default_val: Option<Seq<char>>,
    /// The generating expression and its kind.
    pub generated: Option<(Seq<char>, GeneratedColumnType)>,
}

/// `text` when `on` holds, else nothing.
pub open spec fn marker(on: bool, text: Seq<char>) -> Seq<char> {
    if on {
        text
    } else {
        Seq::empty()
    }
}

pub open spec fn default_part(value: Option<Seq<char>>) -> Seq<char> {
    match value {
        Some(v) => " DEFAULT "@ + v,
        None => Seq::empty(),
    }
}

pub open spec fn check_part(constraint: Option<Seq<char>>) -> Seq<char> {
    match constraint {
        Some(c) => " CHECK("@ + c + ")"@,
        None => Seq::empty(),
    }
}

pub open spec fn generated_part(generated: Option<(Seq<char>, GeneratedColumnType)>) -> Seq<char> {
    match generated {
        Some(g) => " AS ("@ + g.0 + ") "@ + g.1.keyword(),
        None => Seq::empty(),
    }
}

/// The text of a column definition: name, type, then NOT NULL, UNIQUE,
/// PRIMARY KEY, DEFAULT, CHECK and AS in this order, each only when set.
pub open spec fn column_text(c: ColumnState) -> Seq<char> {
    c.name + " "@ + c.typ.keyword() + marker(c.not_null, " NOT NULL"@) + marker(
        c.unique,
        " UNIQUE"@,
    ) + marker(c.primary_key, " PRIMARY KEY"@) + default_part(c.default_val) + check_part(c.check)
        + generated_part(c.generated)
}

impl ColumnState {
    /// A NOT NULL INTEGER column with nothing else set.
    pub open spec fn fresh(name: Seq<char>) -> ColumnState {
        ColumnState {
            name,
            typ: ColumnType::Integer,
            not_null: true,
            unique: false,
            primary_key: false,
            check: None,
            default_val: None,
            generated: None,
        }
    }

    pub open spec fn with_type(self, typ: ColumnType) -> ColumnState {
        ColumnState { typ, ..self }
    }

    /// A nullable column can be neither unique nor a key.
    pub open spec fn made_nullable(self) -> ColumnState {
        ColumnState { not_null: false, primary_key: false, unique: false, ..self }
    }

    pub open spec fn made_unique(self) -> ColumnState {
        ColumnState { not_null: true, unique: true, ..self }
    }

    pub open spec fn made_primary_key(self) -> ColumnState {
        ColumnState { not_null: true, primary_key: true, ..self }
    }

    pub open spec fn with_check(self, constraint: Seq<char>) -> ColumnState {
        ColumnState { check: Some(constraint), ..self }
    }

    pub open spec fn with_default(self, value: Seq<char>) -> ColumnState {
        ColumnState { default_val: Some(value), ..self }
    }

    /// A generated column has no default and is not a key.
    pub open spec fn made_generated(self, expr: Seq<char>, kind: GeneratedColumnType) -> ColumnState {
        ColumnState {
            generated: Some((expr, kind)),
            default_val: None,
            primary_key: false,
            ..self
        }
    }
}

#[derive(Debug)]
struct Generated {
    expr: String,
    type_: GeneratedColumnType,
}

impl Generated {
    fn new(expr: &str, typ: GeneratedColumnType) -> (r: Self)
        ensures
            r.expr@ == expr@,
            r.type_ == typ,
    {
        Self { expr: expr.to_owned(), type_: typ }
    }
}

/// A column definition, built by chained calls from `Column::new`.
#[derive(Debug)]
pub struct Column {
    name: String,
    typ_: ColumnType,
    not_null: bool,
    unique: bool,
    primary_key: bool,
    check: Option<String>,
    default_val: Option<String>,
    generated: Option<Generated>,
}

impl View for Column {
    type V = ColumnState;

    closed spec fn view(&self) -> ColumnState {
        ColumnState {
            name: self.name@,
            typ: self.typ_,
            not_null: self.not_null,
            unique: self.unique,
            primary_key: self.primary_key,
            check: option_view(self.check),
            default_val: option_view(self.default_val),
            generated: match self.generated {
                Some(g) => Some((g.expr@, g.type_)),
                None => None,
            },
        }
    }
}

impl Column {
    pub fn new(name: &str) -> (r: Self)
        ensures
            r@ == ColumnState::fresh(name@),
    {
        Self {
            name: name.to_owned(),
            typ_: ColumnType::Integer,
            not_null: true,
            unique: false,
            primary_key: false,
            check: None,
            default_val: None,
            generated: None,
        }
    }

    pub fn int_(self) -> (r: Self)
        ensures
            r@ == self@.with_type(ColumnType::Integer),
    {
        let mut c = self;
        c.typ_ = ColumnType::Integer;
        c
    }

    pub fn real_(self) -> (r: Self)
        ensures
            r@ == self@.with_type(ColumnType::Real),
    {
        let mut c = self;
        c.typ_ = ColumnType::Real;
        c
    }

    pub fn text(self) -> (r: Self)
        ensures
            r@ == self@.with_type(ColumnType::Text),
    {
        let mut c = self;
        c.typ_ = ColumnType::Text;
        c
    }

    pub fn blob(self) -> (r: Self)
        ensures
            r@ == self@.with_type(ColumnType::Blob),
    {
        let mut c = self;
        c.typ_ = ColumnType::Blob;
        c
    }

    /// Allows NULL; this also drops UNIQUE and PRIMARY KEY.
    pub fn nullable(self) -> (r: Self)
        ensures
            r@ == self@.made_nullable(),
    {
        let mut c = self;
        c.not_null = false;
        c.primary_key = false;
        c.unique = false;
        c
    }

    pub fn unique(self) -> (r: Self)
        ensures
            r@ == self@.made_unique(),
    {
        let mut c = self;
        c.not_null = true;
        c.unique = true;
        c
    }

    pub fn primary_key(self) -> (r: Self)
        ensures
            r@ == self@.made_primary_key(),
    {
        let mut c = self;
        c.not_null = true;
        c.primary_key = true;
        c
    }

    pub fn check(self, constraint: &str) -> (r: Self)
        ensures
            r@ == self@.with_check(constraint@),
    {
        let mut c = self;
        c.check = Some(constraint.to_owned());
        c
    }

    pub fn default_value(self, value: &str) -> (r: Self)
        ensures
            r@ == self@.with_default(value@),
    {
        let mut c = self;
        c.default_val = Some(value.to_owned());
        c
    }

    /// Makes the column generated from `expr`. A generated column cannot be
    /// part of the primary key nor have a default value, so both are dropped.
    pub fn generated(self, expr: &str, typ: GeneratedColumnType) -> (r: Self)
        ensures
            r@ == self@.made_generated(expr@, typ),
    {
        let mut c = self;
        c.generated = Some(Generated::new(expr, typ));
        c.default_val = None;
        c.primary_key = false;
        c
    }

    pub fn is_generated(&self) -> (r: bool)
        ensures
            r == self@.generated.is_some(),
    {
        match self.generated {
            Some(_) => true,
            None => false,
        }
    }

    pub fn is_primary_key(&self) -> (r: bool)
        ensures
            r == self@.primary_key,
    {
        self.primary_key
    }

    /// A copy of the default value, if one is set.
    pub fn default_val(&self) -> (r: Option<String>)
        ensures
            option_view(r) == self@.default_val,
    {
        match &self.default_val {
            Some(v) => Some(v.clone()),
            None => None,
        }
    }

    pub fn to_text(&self) -> (r: String)
        ensures
            r@ == column_text(self@),
    {
        let mut sql = String::new();
        sql.append(self.name.as_str());
        sql.append(" ");
        sql.append(self.typ_.to_str());
        push_marker(&mut sql, self.not_null, " NOT NULL");
        push_marker(&mut sql, self.unique, " UNIQUE");
        push_marker(&mut sql, self.primary_key, " PRIMARY KEY");
        push_default(&mut sql, &self.default_val);
        push_check(&mut sql, &self.check);
        push_generated(&mut sql, &self.generated);
        sql
    }
}

fn push_marker(sql: &mut String, on: bool, text: &str)
    ensures
        final(sql)@ == old(sql)@ + marker(on, text@),
{
    if on {
        sql.append(text);
    } else {
        assert(sql@ =~= sql@ + marker(on, text@));
    }
}

fn push_default(sql: &mut String, value: &Option<String>)
    ensures
        final(sql)@ == old(sql)@ + default_part(option_view(*value)),
{
    if let Some(v) = value {
        sql.append(" DEFAULT ");
        sql.append(v.as_str());
        assert(sql@ =~= old(sql)@ + default_part(option_view(*value)));
    } else {
        assert(sql@ =~= sql@ + default_part(option_view(*value)));
    }
}

fn push_check(sql: &mut String, constraint: &Option<String>)
    ensures
        final(sql)@ == old(sql)@ + check_part(option_view(*constraint)),
{
    if let Some(c) = constraint {
        sql.append(" CHECK(");
        sql.append(c.as_str());
        sql.append(")");
        assert(sql@ =~= old(sql)@ + check_part(option_view(*constraint)));
    } else {
        assert(sql@ =~= sql@ + check_part(option_view(*constraint)));
    }
}

fn push_generated(sql: &mut String, generated: &Option<Generated>)
    ensures
        final(sql)@ == old(sql)@ + generated_part(
            match *generated {
                Some(g) => Some((g.expr@, g.type_)),
                None => None,
            },
        ),
{
    if let Some(g) = generated {
        sql.append(" AS (");
        sql.append(g.expr.as_str());
        sql.append(") ");
        sql.append(g.type_.to_str());
        assert(sql@ =~= old(sql)@ + (" AS ("@ + g.expr@ + ") "@ + g.type_.keyword()));
    } else {
        assert(sql@ =~= sql@ + Seq::<char>::empty());
    }
}

/// Making a column nullable after making it a primary key leaves neither
/// NOT NULL, UNIQUE nor PRIMARY KEY in its state or its text.
pub proof fn lemma_nullable_after_primary_key(c: ColumnState)
    ensures
        !c.made_primary_key().made_nullable().not_null,
        !c.made_primary_key().made_nullable().primary_key,
        !c.made_primary_key().made_nullable().unique,
        column_text(c.made_primary_key().made_nullable()) == c.name + " "@ + c.typ.keyword()
            + default_part(c.default_val) + check_part(c.check) + generated_part(c.generated),
{
    let n = c.made_primary_key().made_nullable();
    assert(column_text(n) =~= c.name + " "@ + c.typ.keyword() + default_part(c.default_val)
        + check_part(c.check) + generated_part(c.generated));
}

/// A default value set before the column is made generated leaves no trace:
/// the state, and so the text, is as if it had never been set.
pub proof fn lemma_generated_drops_default(
    c: ColumnState,
    value: Seq<char>,
    expr: Seq<char>,
    kind: GeneratedColumnType,
)
    ensures
        c.with_default(value).made_generated(expr, kind).default_val is None,
        c.with_default(value).made_generated(expr, kind) == c.made_generated(expr, kind),
        column_text(c.with_default(value).made_generated(expr, kind)) == c.name + " "@
            + c.typ.keyword() + marker(c.not_null, " NOT NULL"@) + marker(c.unique, " UNIQUE"@)
            + check_part(c.check) + " AS ("@ + expr + ") "@ + kind.keyword(),
{
    let g = c.with_default(value).made_generated(expr, kind);
    assert(column_text(g) =~= c.name + " "@ + c.typ.keyword() + marker(c.not_null, " NOT NULL"@)
        + marker(c.unique, " UNIQUE"@) + check_part(c.check) + " AS ("@ + expr + ") "@
        + kind.keyword());
}

} // verus!
