//! FOREIGN KEY constraints.
use vstd::prelude::*;

verus! {

/// What happens to referencing rows when the referenced row changes.
#[derive(Clone, Copy, Debug, PartialEq, Eq, Structural)]
pub enum ForeignKeyAction {
    SetNull,
    SetDefault,
    Restrict,
    NoAction,
    Cascade,
}

impl ForeignKeyAction {
    pub open spec fn keyword(self) -> Seq<char> {
        match self {
            ForeignKeyAction::SetNull => "SET NULL"@,
            ForeignKeyAction::SetDefault => "SET DEFAULT"@,
            ForeignKeyAction::Restrict => "RESTRICT"@,
            ForeignKeyAction::NoAction => "NO ACTION"@,
            ForeignKeyAction::Cascade => "CASCADE"@,
        }
    }

    pub fn to_str(&self) -> (r: &'static str)
        ensures
            r@ == self.keyword(),
    {
        match self {
            ForeignKeyAction::SetNull => "SET NULL",
            ForeignKeyAction::SetDefault => "SET DEFAULT",
            ForeignKeyAction::Restrict => "RESTRICT",
            ForeignKeyAction::NoAction => "NO ACTION",
            ForeignKeyAction::Cascade => "CASCADE",
        }
    }
}

/// What a foreign key constraint holds.
pub struct ForeignKeyState {
    pub col: Seq<char>,
    pub ref_table: Seq<char>,
    pub ref_col: Seq<char>,
    pub delete_action: Option<ForeignKeyAction>,
    pub update_action: Option<ForeignKeyAction>,
}

/// `keyword action ` when an action is set, else nothing.
pub open spec fn action_part(keyword: Seq<char>, action: Option<ForeignKeyAction>) -> Seq<char> {
    match action {
        Some(a) => keyword + a.keyword() + " "@,
        None => Seq::empty(),
    }
}

/// The text of a foreign key constraint.
pub open spec fn foreign_key_text(k: ForeignKeyState) -> Seq<char> {
    " FOREIGN KEY ("@ + k.col + ") REFERENCES "@ + k.ref_table + " ("@ + k.ref_col + ") "@
        + action_part("ON DELETE "@, k.delete_action) + action_part("ON UPDATE "@, k.update_action)
}

/// A foreign key constraint, built by chained calls from `ForeignKey::new`.
#[derive(Debug)]
pub struct ForeignKey {
    col: String,
    ref_col: String,
    ref_table: String,
    delete_action: Option<ForeignKeyAction>,
    update_action: Option<ForeignKeyAction>,
}

impl View for ForeignKey {
    type V = ForeignKeyState;

    closed spec fn view(&self) -> ForeignKeyState {
        ForeignKeyState {
            col: self.col@,
            ref_table: self.ref_table@,
            ref_col: self.ref_col@,
            delete_action: self.delete_action,
            update_action: self.update_action,
        }
    }
}

fn push_action(sql: &mut String, keyword: &str, action: Option<ForeignKeyAction>)
    ensures
        final(sql)@ == old(sql)@ + action_part(keyword@, action),
{
    if let Some(a) = action {
        sql.append(keyword);
        sql.append(a.to_str());
        sql.append(" ");
        assert(sql@ =~= old(sql)@ + action_part(keyword@, action));
    } else {
        assert(sql@ =~= sql@ + action_part(keyword@, action));
    }
}

impl ForeignKey {
    /// A key on `col`; deleting a referenced row is restricted by default,
    /// and no update action is set.
    pub fn new(col: &str) -> (r: Self)
        ensures
            r@ == (ForeignKeyState {
                col: col@,
                ref_table: Seq::empty(),
                ref_col: Seq::empty(),
                delete_action: Some(ForeignKeyAction::Restrict),
                update_action: None,
            }),
    {
        Self {
            col: col.to_owned(),
            ref_col: String::new(),
            ref_table: String::new(),
            delete_action: Some(ForeignKeyAction::Restrict),
            update_action: None,
        }
    }

    pub fn references(self, table: &str, col: &str) -> (r: Self)
        ensures
            r@ == (ForeignKeyState { ref_table: table@, ref_col: col@, ..self@ }),
    {
        let mut k = self;
        k.ref_col = col.to_owned();
        k.ref_table = table.to_owned();
        k
    }

    pub fn on_update(self, action: ForeignKeyAction) -> (r: Self)
        ensures
            r@ == (ForeignKeyState { update_action: Some(action), ..self@ }),
    {
        let mut k = self;
        k.update_action = Some(action);
        k
    }

    pub fn on_delete(self, action: ForeignKeyAction) -> (r: Self)
        ensures
            r@ == (ForeignKeyState { delete_action: Some(action), ..self@ }),
    {
        let mut k = self;
        k.delete_action = Some(action);
        k
    }

    pub fn to_text(&self) -> (r: String)
        ensures
            r@ == foreign_key_text(self@),
    {
        let mut sql = String::new();
        sql.append(" FOREIGN KEY (");
        sql.append(self.col.as_str());
        sql.append(") REFERENCES ");
        sql.append(self.ref_table.as_str());
        sql.append(" (");
        sql.append(self.ref_col.as_str());
        sql.append(") ");
        push_action(&mut sql, "ON DELETE ", self.delete_action);
        push_action(&mut sql, "ON UPDATE ", self.update_action);
        sql
    }
}

} // verus!
