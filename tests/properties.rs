use sql_builder::query::{delete_from, insert, select, update};
use sql_builder::schema::{
    alter_table, create_table, create_trigger, create_view, Check, Column, ForeignKey,
    ForeignKeyAction, GeneratedColumnType, ViewCreate, ViewType,
};

#[test]
fn clause_order_ignores_call_order() {
    let a = select(&["a"]).limit(Some(5)).offset(None).distinct().from("t").to_text();
    let b = select(&["a"]).from("t").distinct().offset(None).limit(Some(5)).to_text();
    assert_eq!(a, b);
    assert_eq!(a, "SELECT DISTINCT a FROM t LIMIT 5 OFFSET ?");
}

#[test]
fn clause_order_with_every_clause() {
    let sql = select(&["a", "count(b)"])
        .offset(Some(3))
        .limit(Some(2))
        .from("t")
        .where_("a > 0")
        .group_by(&["a"])
        .having("count(b) > 1")
        .or("a = 7")
        .order_by("a")
        .desc()
        .to_text();
    assert_eq!(
        sql,
        "SELECT a, count(b) FROM t WHERE a > 0 GROUP BY a HAVING count(b) > 1 OR a = 7 ORDER BY a DESC LIMIT 2 OFFSET 3"
    );
}

#[test]
fn last_direction_wins() {
    let sql = select(&["f"]).from("t").order_by("f").asc().desc().to_text();
    assert_eq!(sql, "SELECT f FROM t ORDER BY f DESC");
    let sql = select(&["f", "g"])
        .from("t")
        .order_by("g")
        .desc()
        .order_by("f")
        .asc()
        .desc()
        .to_text();
    assert_eq!(sql, "SELECT f, g FROM t ORDER BY g DESC, f DESC");
    let sql = select(&["f"]).from("t").order_by("f").desc().asc().to_text();
    assert_eq!(sql, "SELECT f FROM t ORDER BY f ASC");
}

#[test]
fn predicates_append_left_to_right() {
    let sql = select(&["x"]).from("t").where_("p").and("q").or("r").to_text();
    assert_eq!(sql, "SELECT x FROM t WHERE p AND q OR r");
    let sql = update("t").set(&[("a", "1")]).where_("p").or("q").and("r").to_text();
    assert_eq!(sql, "UPDATE t SET a = 1 WHERE p OR q AND r");
}

#[test]
fn limit_none_and_some() {
    assert_eq!(select(&["a"]).from("t").limit(None).to_text(), "SELECT a FROM t LIMIT ?");
    assert_eq!(select(&["a"]).from("t").limit(Some(10)).to_text(), "SELECT a FROM t LIMIT 10");
    assert_eq!(select(&["a"]).from("t").offset(Some(0)).to_text(), "SELECT a FROM t OFFSET 0");
    assert_eq!(
        select(&["a"]).from("t").limit(Some(4294967295)).to_text(),
        "SELECT a FROM t LIMIT 4294967295"
    );
    assert_eq!(
        select(&["a"]).from("t").limit(Some(1204)).limit(Some(9)).to_text(),
        "SELECT a FROM t LIMIT 9"
    );
}

#[test]
fn select_without_table() {
    assert_eq!(select(&["a"]).to_text(), "SELECT a");
    assert_eq!(select(&["a"]).where_("a > 1").to_text(), "SELECT a WHERE a > 1");
    assert_eq!(select(&["a"]).from("").limit(Some(1)).to_text(), "SELECT a LIMIT 1");
}

#[test]
fn select_with_no_fields() {
    assert_eq!(select(&[]).from("t").to_text(), "SELECT  FROM t");
}

#[test]
fn round_trip_scenario() {
    let sql = select(&["a", "b"])
        .from("t")
        .where_("a=1")
        .and("b=2")
        .group_by(&["a"])
        .having("count>1")
        .order_by("a")
        .to_text();
    assert_eq!(sql, "SELECT a, b FROM t WHERE a=1 AND b=2 GROUP BY a HAVING count>1 ORDER BY a ASC");
}

#[test]
fn nested_subquery_embedded_verbatim() {
    let inner = select(&["id"]).from("users").where_("banned = TRUE").order_by("id").to_text();
    let sql = update("posts")
        .set(&[("hidden", "1")])
        .where_(&format!("authorId IN ({})", inner))
        .to_text();
    assert_eq!(
        sql,
        "UPDATE posts SET hidden = 1 WHERE authorId IN (SELECT id FROM users WHERE banned = TRUE ORDER BY id ASC)"
    );
    let sql = delete_from("c").where_(&format!("x IN ({})", inner)).to_text();
    assert_eq!(sql, format!("DELETE FROM c WHERE x IN ({})", inner));
}

#[test]
fn insert_with_empty_lists() {
    assert_eq!(insert(&[]).into("t").values(&[]).to_text(), "INSERT INTO t() VALUES()");
}

#[test]
fn update_without_predicate() {
    let sql = update("t").set(&[("a", "1"), ("b", "'x'")]).to_text();
    assert_eq!(sql, "UPDATE t SET a = 1, b = 'x'");
}

#[test]
fn nullable_after_primary_key() {
    let col = Column::new("id").unique().primary_key().nullable();
    assert_eq!(col.to_text(), "id INTEGER");
    assert_eq!(col.is_primary_key(), false);
}

#[test]
fn generated_after_default() {
    let col = Column::new("g").default_value("3").generated("a * 2", GeneratedColumnType::Stored);
    assert_eq!(col.default_val(), None);
    assert_eq!(col.to_text(), "g INTEGER NOT NULL AS (a * 2) STORED");
    let kept = Column::new("k").default_value("3");
    assert_eq!(kept.default_val(), Some("3".to_string()));
}

#[test]
fn column_types_and_markers() {
    assert_eq!(Column::new("r").real_().to_text(), "r REAL NOT NULL");
    assert_eq!(Column::new("b").blob().to_text(), "b BLOB NOT NULL");
    assert_eq!(Column::new("s").text().to_text(), "s TEXT NOT NULL");
    assert_eq!(Column::new("i").blob().int_().to_text(), "i INTEGER NOT NULL");
    let col = Column::new("c")
        .generated("x", GeneratedColumnType::Virtual)
        .check("c > 0")
        .unique()
        .text();
    assert_eq!(col.to_text(), "c TEXT NOT NULL UNIQUE CHECK(c > 0) AS (x) VIRTUAL");
    let col = Column::new("d").check("d <> 0").default_value("1").primary_key();
    assert_eq!(col.to_text(), "d INTEGER NOT NULL PRIMARY KEY DEFAULT 1 CHECK(d <> 0)");
}

#[test]
fn foreign_key_actions() {
    let fk = ForeignKey::new("a").references("t", "id");
    assert_eq!(fk.to_text(), " FOREIGN KEY (a) REFERENCES t (id) ON DELETE RESTRICT ");
    let fk = ForeignKey::new("a")
        .references("t", "id")
        .on_delete(ForeignKeyAction::Cascade)
        .on_update(ForeignKeyAction::SetNull);
    assert_eq!(
        fk.to_text(),
        " FOREIGN KEY (a) REFERENCES t (id) ON DELETE CASCADE ON UPDATE SET NULL "
    );
    let fk = ForeignKey::new("a")
        .on_update(ForeignKeyAction::SetDefault)
        .on_delete(ForeignKeyAction::NoAction)
        .references("u", "k");
    assert_eq!(
        fk.to_text(),
        " FOREIGN KEY (a) REFERENCES u (k) ON DELETE NO ACTION ON UPDATE SET DEFAULT "
    );
    let fk = ForeignKey::new("a").references("t", "id").on_update(ForeignKeyAction::Restrict);
    assert_eq!(
        fk.to_text(),
        " FOREIGN KEY (a) REFERENCES t (id) ON DELETE RESTRICT ON UPDATE RESTRICT "
    );
}

#[test]
fn table_separators_count() {
    let mut t = create_table("t");
    t.add_foreign_key(ForeignKey::new("a").references("u", "id"));
    t.add_column(Column::new("a"));
    t.add_check(Check::new("a > 0"));
    t.add_column(Column::new("b").nullable());
    let sql = t.to_text();
    assert_eq!(
        sql,
        "CREATE TABLE t IF NOT EXISTS (\na INTEGER NOT NULL,\nb INTEGER,\n CHECK(a > 0) ,\n FOREIGN KEY (a) REFERENCES u (id) ON DELETE RESTRICT \n);"
    );
    assert_eq!(sql.matches(",\n").count(), 3);
}

#[test]
fn table_without_columns() {
    let sql = create_table("t").add_check(Check::new("1")).to_text();
    assert_eq!(sql, "CREATE TABLE t IF NOT EXISTS (\n CHECK(1) \n);");
    let sql = create_table("t")
        .add_foreign_key(ForeignKey::new("a").references("u", "id"))
        .to_text();
    assert_eq!(
        sql,
        "CREATE TABLE t IF NOT EXISTS (\n FOREIGN KEY (a) REFERENCES u (id) ON DELETE RESTRICT \n);"
    );
    assert_eq!(create_table("t").to_text(), "CREATE TABLE t IF NOT EXISTS (\n\n);");
}

#[test]
fn alter_table_category_order() {
    let sql = alter_table("t")
        .drop_column("old")
        .add_column(Column::new("n").text())
        .rename_column("a", "b")
        .rename_to("t2")
        .add_column(Column::new("m").nullable())
        .rename_column("c", "d")
        .to_text();
    assert_eq!(
        sql,
        "ALTER TABLE t RENAME TO t2;\nALTER TABLE t RENAME COLUMN a TO b;\nALTER TABLE t RENAME COLUMN c TO d;\nALTER TABLE t ADD COLUMN n TEXT NOT NULL;\nALTER TABLE t ADD COLUMN m INTEGER;\nALTER TABLE t DROP COLUMN old;"
    );
    assert_eq!(alter_table("t").to_text(), "");
}

#[test]
fn trigger_with_when_and_two_statements() {
    let sql = create_trigger("trg")
        .instead_of()
        .insert()
        .on("v")
        .when("NEW.a > 0")
        .statements(&["INSERT INTO t VALUES(1)", "DELETE FROM u"])
        .to_text();
    let lines: Vec<&str> = sql.split('\n').collect();
    assert_eq!(
        lines,
        vec![
            "CREATE TRIGGER IF NOT EXISTS trg INSTEAD OF INSERT ON v",
            "WHEN NEW.a > 0",
            "BEGIN",
            "INSERT INTO t VALUES(1);",
            "DELETE FROM u;",
            "END;"
        ]
    );
}

#[test]
fn view_in_place_and_getters() {
    let mut v = ViewCreate::new("v");
    v.columns(&["x", "y"]);
    v.column("z");
    v.temporary();
    v.as_("SELECT 1, 2, 3");
    assert_eq!(v.to_text(), "CREATE TEMP VIEW IF NOT EXISTS v(x, y, z) AS SELECT 1, 2, 3;");

    let stmt = create_view("w").column("a").as_("SELECT b FROM t");
    assert_eq!(stmt.name(), "w");
    assert_eq!(stmt.columns(), &["a".to_string()]);
    assert_eq!(stmt.typ_(), ViewType::Normal);
    assert_eq!(stmt.to_text(), "CREATE VIEW IF NOT EXISTS w(a) AS SELECT b FROM t;");
    assert_eq!(create_view("e").columns(&[]).as_("q").to_text(), "CREATE VIEW IF NOT EXISTS e AS q;");
}
