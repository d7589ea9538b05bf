use sql_builder::schema::{create_view, drop_view};

const SELECT: &str = "SELECT Username FROM users";

#[test]
fn create() {
    let view = create_view("my_view").as_(SELECT);
    assert_eq!(view.to_text(), format!("CREATE VIEW IF NOT EXISTS my_view AS {};", SELECT));
}

#[test]
fn create_temp() {
    let view = create_view("my_view").temporary().as_(SELECT);
    assert_eq!(view.to_text(), format!("CREATE TEMP VIEW IF NOT EXISTS my_view AS {};", SELECT));
}

#[test]
fn columns() {
    let view = create_view("my_view")
        .temporary()
        .column("a")
        .column("b")
        .columns(&["c", "d"])
        .as_(SELECT);
    assert_eq!(
        view.to_text(),
        format!("CREATE TEMP VIEW IF NOT EXISTS my_view(a, b, c, d) AS {};", SELECT)
    );
}

#[test]
fn drop_() {
    let dview = drop_view("my_view");
    assert_eq!(dview.to_text(), "DROP VIEW IF EXISTS my_view;");
}
