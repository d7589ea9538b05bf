//! CREATE TABLE, ALTER TABLE and DROP TABLE.
//!
//! `Table` and `AlterTable` are accumulators: each call adds one item through
//! `&mut` and hands the same builder back, so calls chain. Rendering depends
//! only on what was accumulated, category by category.
use super::check::{check_text, Check};
use super::column::{column_text, Column, ColumnState};
use super::foreign_key::{foreign_key_text, ForeignKey, ForeignKeyState};
use crate::text::{
    join_strings, joined, lemma_joined_separators, preceded_by_sep, string_views,
};
use vstd::prelude::*;

verus! {

/// What a CREATE TABLE statement holds.
pub struct TableState {
    pub name: Seq<char>,
    pub columns: Seq<ColumnState>,
    /// The expressions of the table-level checks.
    pub checks: Seq<Seq<char>>,
    pub foreign_keys: Seq<ForeignKeyState>,
}

/// The rendered items of a table: columns, then checks, then foreign keys,
/// each category in the order it was added.
pub open spec fn table_items(t: TableState) -> Seq<Seq<char>> {
    t.columns.map_values(|c: ColumnState| column_text(c)) + t.checks.map_values(
        |e: Seq<char>| check_text(e),
    ) + t.foreign_keys.map_values(|k: ForeignKeyState| foreign_key_text(k))
}

/// The text of a CREATE TABLE statement: all items separated by `",\n"`.
pub open spec fn table_text(t: TableState) -> Seq<char> {
    "CREATE TABLE "@ + t.name + " IF NOT EXISTS (\n"@ + joined(table_items(t), ",\n"@) + "\n);"@
}

/// A CREATE TABLE statement under construction.
pub struct Table {
    name: String,
    cols: Vec<Column>,
    checks: Vec<Check>,
    foreign_keys: Vec<ForeignKey>,
}

impl View for Table {
    type V = TableState;

    closed spec fn view(&self) -> TableState {
        TableState {
            name: self.name@,
            columns: self.cols@.map_values(|c: Column| c@),
            checks: self.checks@.map_values(|c: Check| c@),
            foreign_keys: self.foreign_keys@.map_values(|k: ForeignKey| k@),
        }
    }
}

impl Table {
    fn new(name: &str) -> (r: Self)
        ensures
            r@ == (TableState {
                name: name@,
                columns: Seq::empty(),
                checks: Seq::empty(),
                foreign_keys: Seq::empty(),
            }),
    {
        let r = Self {
            name: name.to_owned(),
            cols: Vec::new(),
            checks: Vec::new(),
            foreign_keys: Vec::new(),
        };
        assert(r@.columns =~= Seq::empty());
        assert(r@.checks =~= Seq::empty());
        assert(r@.foreign_keys =~= Seq::empty());
        r
    }

    pub fn add_column(&mut self, col: Column) -> (r: &mut Self)
        ensures
            (*r)@ == (TableState { columns: old(self)@.columns.push(col@), ..old(self)@ }),
            *final(self) == *final(r),
    {
        let ghost c = col@;
        self.cols.push(col);
        assert(self@.columns =~= old(self)@.columns.push(c));
        self
    }

    pub fn add_check(&mut self, check: Check) -> (r: &mut Self)
        ensures
            (*r)@ == (TableState { checks: old(self)@.checks.push(check@), ..old(self)@ }),
            *final(self) == *final(r),
    {
        let ghost c = check@;
        self.checks.push(check);
        assert(self@.checks =~= old(self)@.checks.push(c));
        self
    }

    pub fn add_foreign_key(&mut self, foreign_key: ForeignKey) -> (r: &mut Self)
        ensures
            (*r)@ == (TableState {
                foreign_keys: old(self)@.foreign_keys.push(foreign_key@),
                ..old(self)@
            }),
            *final(self) == *final(r),
    {
        let ghost k = foreign_key@;
        self.foreign_keys.push(foreign_key);
        assert(self@.foreign_keys =~= old(self)@.foreign_keys.push(k));
        self
    }

    fn items(&self) -> (r: Vec<String>)
        ensures
            string_views(r@) == table_items(self@),
    {
        let ghost t = self@;
        let mut items: Vec<String> = Vec::new();
        let mut i: usize = 0;
        while i < self.cols.len()
            invariant
                i <= self.cols@.len(),
                t == self@,
                items@.len() == i,
                forall|j: int| 0 <= j < i ==> #[trigger] items@[j]@ == column_text(t.columns[j]),
            decreases self.cols@.len() - i,
        {
            items.push(self.cols[i].to_text());
            i = i + 1;
        }
        let ncols = i;
        let mut i: usize = 0;
        while i < self.checks.len()
            invariant
                i <= self.checks@.len(),
                t == self@,
                ncols == t.columns.len(),
                items@.len() == ncols + i,
                forall|j: int| 0 <= j < ncols ==> #[trigger] items@[j]@ == column_text(t.columns[j]),
                forall|j: int|
                    0 <= j < i ==> #[trigger] items@[ncols + j]@ == check_text(t.checks[j]),
            decreases self.checks@.len() - i,
        {
            items.push(self.checks[i].to_text());
            i = i + 1;
        }
        let nchecks = i;
        let mut i: usize = 0;
        while i < self.foreign_keys.len()
            invariant
                i <= self.foreign_keys@.len(),
                t == self@,
                ncols == t.columns.len(),
                nchecks == t.checks.len(),
                items@.len() == ncols + nchecks + i,
                forall|j: int| 0 <= j < ncols ==> #[trigger] items@[j]@ == column_text(t.columns[j]),
                forall|j: int|
                    0 <= j < nchecks ==> #[trigger] items@[ncols + j]@ == check_text(t.checks[j]),
                forall|j: int|
                    0 <= j < i ==> #[trigger] items@[ncols + nchecks + j]@ == foreign_key_text(
                        t.foreign_keys[j],
                    ),
            decreases self.foreign_keys@.len() - i,
        {
            items.push(self.foreign_keys[i].to_text());
            i = i + 1;
        }
        assert forall|j: int| 0 <= j < items@.len() implies #[trigger] string_views(items@)[j]
            == table_items(t)[j] by {
            if j < ncols {
            } else if j < ncols + nchecks {
                assert(items@[ncols + (j - ncols)]@ == check_text(t.checks[j - ncols]));
            } else {
                assert(items@[ncols + nchecks + (j - ncols - nchecks)]@ == foreign_key_text(
                    t.foreign_keys[j - ncols - nchecks],
                ));
            }
        }
        assert(string_views(items@) =~= table_items(t));
        items
    }

    pub fn to_text(&self) -> (r: String)
        ensures
            r@ == table_text(self@),
    {
        let items = self.items();
        let mut sql = String::new();
        sql.append("CREATE TABLE ");
        sql.append(self.name.as_str());
        sql.append(" IF NOT EXISTS (\n");
        let body = join_strings(&items, ",\n");
        sql.append(body.as_str());
        sql.append("\n);");
        sql
    }
}

/// A table with N columns, M checks and K foreign keys, N + M + K > 0,
/// renders one list of N + M + K items: the first alone, and each of the
/// other N + M + K - 1 preceded by exactly one `",\n"`, the whole between
/// `CREATE TABLE name IF NOT EXISTS (` with a newline, and `"\n);"`.
pub proof fn lemma_table_item_separators(t: TableState)
    requires
        t.columns.len() + t.checks.len() + t.foreign_keys.len() > 0,
    ensures
        table_items(t).len() == t.columns.len() + t.checks.len() + t.foreign_keys.len(),
        preceded_by_sep(table_items(t), ",\n"@).len() == table_items(t).len() - 1,
        table_text(t) == "CREATE TABLE "@ + t.name + " IF NOT EXISTS ("@ + "\n"@ + table_items(t)[0]
            + preceded_by_sep(table_items(t), ",\n"@).flatten() + "\n);"@,
{
    let items = table_items(t);
    lemma_joined_separators(items, ",\n"@);
    reveal_strlit(" IF NOT EXISTS (\n");
    reveal_strlit(" IF NOT EXISTS (");
    reveal_strlit("\n");
    assert(" IF NOT EXISTS (\n"@ =~= " IF NOT EXISTS ("@ + "\n"@);
    assert(table_text(t) =~= "CREATE TABLE "@ + t.name + " IF NOT EXISTS ("@ + "\n"@ + items[0]
        + preceded_by_sep(items, ",\n"@).flatten() + "\n);"@);
}

/// What an ALTER TABLE statement holds.
pub struct AlterTableState {
    pub name: Seq<char>,
    pub new_name: Option<Seq<char>>,
    pub columns: Seq<ColumnState>,
    /// Column renames as (old name, new name).
    pub renames: Seq<(Seq<char>, Seq<char>)>,
    pub drops: Seq<Seq<char>>,
}

pub open spec fn rename_table_line(name: Seq<char>, new_name: Seq<char>) -> Seq<char> {
    "ALTER TABLE "@ + name + " RENAME TO "@ + new_name + ";"@
}

pub open spec fn rename_column_line(name: Seq<char>, rename: (Seq<char>, Seq<char>)) -> Seq<char> {
    "ALTER TABLE "@ + name + " RENAME COLUMN "@ + rename.0 + " TO "@ + rename.1 + ";"@
}

pub open spec fn add_column_line(name: Seq<char>, col: ColumnState) -> Seq<char> {
    "ALTER TABLE "@ + name + " ADD COLUMN "@ + column_text(col) + ";"@
}

pub open spec fn drop_column_line(name: Seq<char>, col: Seq<char>) -> Seq<char> {
    "ALTER TABLE "@ + name + " DROP COLUMN "@ + col + ";"@
}

/// One statement per recorded operation: the table rename, then column
/// renames, then added columns, then dropped columns.
pub open spec fn alter_lines(a: AlterTableState) -> Seq<Seq<char>> {
    (match a.new_name {
        Some(n) => seq![rename_table_line(a.name, n)],
        None => Seq::empty(),
    }) + a.renames.map_values(|r: (Seq<char>, Seq<char>)| rename_column_line(a.name, r))
        + a.columns.map_values(|c: ColumnState| add_column_line(a.name, c)) + a.drops.map_values(
        |d: Seq<char>| drop_column_line(a.name, d),
    )
}

/// The text of an ALTER TABLE: its statements, one per line.
pub open spec fn alter_text(a: AlterTableState) -> Seq<char> {
    joined(alter_lines(a), "\n"@)
}

/// An ALTER TABLE statement under construction.
#[derive(Debug)]
pub struct AlterTable {
    name: String,
    new_name: Option<String>,
    cols: Vec<Column>,
    renames: Vec<(String, String)>,
    drops: Vec<String>,
}

impl View for AlterTable {
    type V = AlterTableState;

    closed spec fn view(&self) -> AlterTableState {
        AlterTableState {
            name: self.name@,
            new_name: crate::text::option_view(self.new_name),
            columns: self.cols@.map_values(|c: Column| c@),
            renames: self.renames@.map_values(|r: (String, String)| (r.0@, r.1@)),
            drops: string_views(self.drops@),
        }
    }
}

fn alter_line(name: &str, action: &str, subject: &str) -> (r: String)
    ensures
        r@ == "ALTER TABLE "@ + name@ + action@ + subject@ + ";"@,
{
    let mut sql = String::new();
    sql.append("ALTER TABLE ");
    sql.append(name);
    sql.append(action);
    sql.append(subject);
    sql.append(";");
    sql
}

impl AlterTable {
    fn new(name: &str) -> (r: Self)
        ensures
            r@ == (AlterTableState {
                name: name@,
                new_name: None,
                columns: Seq::empty(),
                renames: Seq::empty(),
                drops: Seq::empty(),
            }),
    {
        let r = Self {
            name: name.to_owned(),
            new_name: None,
            cols: Vec::new(),
            renames: Vec::new(),
            drops: Vec::new(),
        };
        assert(r@.columns =~= Seq::empty());
        assert(r@.renames =~= Seq::empty());
        assert(r@.drops =~= Seq::empty());
        r
    }

    pub fn rename_to(&mut self, new_name: &str) -> (r: &mut Self)
        ensures
            (*r)@ == (AlterTableState { new_name: Some(new_name@), ..old(self)@ }),
            *final(self) == *final(r),
    {
        self.new_name = Some(new_name.to_owned());
        self
    }

    pub fn add_column(&mut self, col: Column) -> (r: &mut Self)
        ensures
            (*r)@ == (AlterTableState { columns: old(self)@.columns.push(col@), ..old(self)@ }),
            *final(self) == *final(r),
    {
        let ghost c = col@;
        self.cols.push(col);
        assert(self@.columns =~= old(self)@.columns.push(c));
        self
    }

    pub fn rename_column(&mut self, col: &str, new_col: &str) -> (r: &mut Self)
        ensures
            (*r)@ == (AlterTableState {
                renames: old(self)@.renames.push((col@, new_col@)),
                ..old(self)@
            }),
            *final(self) == *final(r),
    {
        self.renames.push((col.to_owned(), new_col.to_owned()));
        assert(self@.renames =~= old(self)@.renames.push((col@, new_col@)));
        self
    }

    pub fn drop_column(&mut self, col: &str) -> (r: &mut Self)
        ensures
            (*r)@ == (AlterTableState { drops: old(self)@.drops.push(col@), ..old(self)@ }),
            *final(self) == *final(r),
    {
        self.drops.push(col.to_owned());
        assert(self@.drops =~= old(self)@.drops.push(col@));
        self
    }

    fn lines(&self) -> (r: Vec<String>)
        ensures
            string_views(r@) == alter_lines(self@),
    {
        let ghost a = self@;
        let name = self.name.as_str();
        let mut lines: Vec<String> = Vec::new();
        if let Some(n) = &self.new_name {
            lines.push(alter_line(name, " RENAME TO ", n.as_str()));
        }
        let ghost head = string_views(lines@);
        assert(head =~= match a.new_name {
            Some(n) => seq![rename_table_line(a.name, n)],
            None => Seq::empty(),
        });
        let nhead = lines.len();
        let mut i: usize = 0;
        while i < self.renames.len()
            invariant
                i <= self.renames@.len(),
                a == self@,
                name@ == a.name,
                nhead == head.len(),
                lines@.len() == nhead + i,
                forall|j: int| 0 <= j < nhead ==> #[trigger] lines@[j]@ == head[j],
                forall|j: int|
                    0 <= j < i ==> #[trigger] lines@[nhead + j]@ == rename_column_line(
                        a.name,
                        a.renames[j],
                    ),
            decreases self.renames@.len() - i,
        {
            let mut subject = String::new();
            subject.append(self.renames[i].0.as_str());
            subject.append(" TO ");
            subject.append(self.renames[i].1.as_str());
            lines.push(alter_line(name, " RENAME COLUMN ", subject.as_str()));
            i = i + 1;
        }
        let nrenames = i;
        let mut i: usize = 0;
        while i < self.cols.len()
            invariant
                i <= self.cols@.len(),
                a == self@,
                name@ == a.name,
                nhead == head.len(),
                nrenames == a.renames.len(),
                lines@.len() == nhead + nrenames + i,
                forall|j: int| 0 <= j < nhead ==> #[trigger] lines@[j]@ == head[j],
                forall|j: int|
                    0 <= j < nrenames ==> #[trigger] lines@[nhead + j]@ == rename_column_line(
                        a.name,
                        a.renames[j],
                    ),
                forall|j: int|
                    0 <= j < i ==> #[trigger] lines@[nhead + nrenames + j]@ == add_column_line(
                        a.name,
                        a.columns[j],
                    ),
            decreases self.cols@.len() - i,
        {
            let col = self.cols[i].to_text();
            lines.push(alter_line(name, " ADD COLUMN ", col.as_str()));
            i = i + 1;
        }
        let nadds = i;
        let mut i: usize = 0;
        while i < self.drops.len()
            invariant
                i <= self.drops@.len(),
                a == self@,
                name@ == a.name,
                nhead == head.len(),
                nrenames == a.renames.len(),
                nadds == a.columns.len(),
                lines@.len() == nhead + nrenames + nadds + i,
                forall|j: int| 0 <= j < nhead ==> #[trigger] lines@[j]@ == head[j],
                forall|j: int|
                    0 <= j < nrenames ==> #[trigger] lines@[nhead + j]@ == rename_column_line(
                        a.name,
                        a.renames[j],
                    ),
                forall|j: int|
                    0 <= j < nadds ==> #[trigger] lines@[nhead + nrenames + j]@ == add_column_line(
                        a.name,
                        a.columns[j],
                    ),
                forall|j: int|
                    0 <= j < i ==> #[trigger] lines@[nhead + nrenames + nadds + j]@
                        == drop_column_line(a.name, a.drops[j]),
            decreases self.drops@.len() - i,
        {
            lines.push(alter_line(name, " DROP COLUMN ", self.drops[i].as_str()));
            i = i + 1;
        }
        assert forall|j: int| 0 <= j < lines@.len() implies #[trigger] string_views(lines@)[j]
            == alter_lines(a)[j] by {
            if j < nhead {
            } else if j < nhead + nrenames {
                assert(lines@[nhead + (j - nhead)]@ == rename_column_line(
                    a.name,
                    a.renames[j - nhead],
                ));
            } else if j < nhead + nrenames + nadds {
                assert(lines@[nhead + nrenames + (j - nhead - nrenames)]@ == add_column_line(
                    a.name,
                    a.columns[j - nhead - nrenames],
                ));
            } else {
                assert(lines@[nhead + nrenames + nadds + (j - nhead - nrenames - nadds)]@
                    == drop_column_line(a.name, a.drops[j - nhead - nrenames - nadds]));
            }
        }
        assert(string_views(lines@) =~= alter_lines(a));
        lines
    }

    pub fn to_text(&self) -> (r: String)
        ensures
            r@ == alter_text(self@),
    {
        let lines = self.lines();
        join_strings(&lines, "\n")
    }
}

/// A DROP TABLE statement; its view is the table name.
pub struct DropTable(String);

impl View for DropTable {
    type V = Seq<char>;

    closed spec fn view(&self) -> Seq<char> {
        self.0@
    }
}

impl DropTable {
    /// `DROP TABLE name;` (without IF EXISTS).
    pub fn to_text(&self) -> (r: String)
        ensures
            r@ == "DROP TABLE "@ + self@ + ";"@,
    {
        let mut sql = String::new();
        sql.append("DROP TABLE ");
        sql.append(self.0.as_str());
        sql.append(";");
        sql
    }
}

/// Starts a CREATE TABLE with no columns, checks or foreign keys.
pub fn create_table(name: &str) -> (r: Table)
    ensures
        r@ == (TableState {
            name: name@,
            columns: Seq::empty(),
            checks: Seq::empty(),
            foreign_keys: Seq::empty(),
        }),
{
    Table::new(name)
}

/// Starts an ALTER TABLE with no operations.
pub fn alter_table(name: &str) -> (r: AlterTable)
    ensures
        r@ == (AlterTableState {
            name: name@,
            new_name: None,
            columns: Seq::empty(),
            renames: Seq::empty(),
            drops: Seq::empty(),
        }),
{
    AlterTable::new(name)
}

pub fn drop_table(name: &str) -> (r: DropTable)
    ensures
        r@ == name@,
{
    DropTable(name.to_owned())
}

} // verus!
