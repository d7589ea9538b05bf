use sql_builder::schema::{create_trigger, drop_trigger};

#[test]
fn trigger_drop() {
    let td = drop_trigger("MyTrigger");

    assert_eq!(td.to_text(), "DROP TRIGGER IF EXISTS MyTrigger;");
}

#[test]
fn trigger_create() {
    let trg1 = create_trigger("MyTrigger").after().delete().on("table").statement("stmt");
    let trg2 = create_trigger("MyTrigger").after().insert().on("table").statement("stmt");
    let trg3 = create_trigger("MyTrigger").after().update().on("table").statement("stmt");
    let trg4 = create_trigger("MyTrigger").instead_of().delete().on("table").statement("stmt");
    let trg5 = create_trigger("MyTrigger").instead_of().insert().on("table").statement("stmt");
    let trg6 = create_trigger("MyTrigger").instead_of().update().on("table").statement("stmt");
    let trg7 = create_trigger("MyTrigger").before().delete().on("table").statement("stmt");
    let trg8 = create_trigger("MyTrigger").before().insert().on("table").statement("stmt");
    let trg9 = create_trigger("MyTrigger").before().update().on("table").statement("stmt");

    assert_eq!(trg1.to_text(), "CREATE TRIGGER IF NOT EXISTS MyTrigger AFTER DELETE ON table\nBEGIN\nstmt;\nEND;");
    assert_eq!(trg2.to_text(), "CREATE TRIGGER IF NOT EXISTS MyTrigger AFTER INSERT ON table\nBEGIN\nstmt;\nEND;");
    assert_eq!(trg3.to_text(), "CREATE TRIGGER IF NOT EXISTS MyTrigger AFTER UPDATE ON table\nBEGIN\nstmt;\nEND;");
    assert_eq!(trg4.to_text(), "CREATE TRIGGER IF NOT EXISTS MyTrigger INSTEAD OF DELETE ON table\nBEGIN\nstmt;\nEND;");
    assert_eq!(trg5.to_text(), "CREATE TRIGGER IF NOT EXISTS MyTrigger INSTEAD OF INSERT ON table\nBEGIN\nstmt;\nEND;");
    assert_eq!(trg6.to_text(), "CREATE TRIGGER IF NOT EXISTS MyTrigger INSTEAD OF UPDATE ON table\nBEGIN\nstmt;\nEND;");
    assert_eq!(trg7.to_text(), "CREATE TRIGGER IF NOT EXISTS MyTrigger BEFORE DELETE ON table\nBEGIN\nstmt;\nEND;");
    assert_eq!(trg8.to_text(), "CREATE TRIGGER IF NOT EXISTS MyTrigger BEFORE INSERT ON table\nBEGIN\nstmt;\nEND;");
    assert_eq!(trg9.to_text(), "CREATE TRIGGER IF NOT EXISTS MyTrigger BEFORE UPDATE ON table\nBEGIN\nstmt;\nEND;");
}

#[test]
fn trigger_create_temp() {
    let trg1 = create_trigger("MyTrigger").temporary().after().delete().on("table").statement("stmt");
    assert_eq!(
        trg1.to_text(),
        "CREATE TEMP TRIGGER IF NOT EXISTS MyTrigger AFTER DELETE ON table\nBEGIN\nstmt;\nEND;"
    );
}

#[test]
fn trigger_create_when() {
    let trg1 = create_trigger("MyTrigger")
        .temporary()
        .after()
        .delete()
        .on("table")
        .when("x < y")
        .statement("stmt");
    assert_eq!(
        trg1.to_text(),
        "CREATE TEMP TRIGGER IF NOT EXISTS MyTrigger AFTER DELETE ON table\nWHEN x < y\nBEGIN\nstmt;\nEND;"
    );
}

#[test]
fn trigger_create_multi_stmt() {
    let trg1 = create_trigger("MyTrigger")
        .after()
        .delete()
        .on("table")
        .when("x < y")
        .statement("stmt0")
        .statement("stmt1");
    assert_eq!(
        trg1.to_text(),
        "CREATE TRIGGER IF NOT EXISTS MyTrigger AFTER DELETE ON table\nWHEN x < y\nBEGIN\nstmt0;\nstmt1;\nEND;"
    );

    let trg2 = create_trigger("MyTrigger")
        .after()
        .delete()
        .on("table")
        .when("x < y")
        .statements(&["stmt0", "stmt1"]);
    assert_eq!(
        trg2.to_text(),
        "CREATE TRIGGER IF NOT EXISTS MyTrigger AFTER DELETE ON table\nWHEN x < y\nBEGIN\nstmt0;\nstmt1;\nEND;"
    );

    let trg3 = create_trigger("MyTrigger")
        .after()
        .delete()
        .on("table")
        .when("x < y")
        .statement("stmt0")
        .statements(&["stmt1", "stmt2"])
        .statement("stmt3");
    assert_eq!(
        trg3.to_text(),
        "CREATE TRIGGER IF NOT EXISTS MyTrigger AFTER DELETE ON table\nWHEN x < y\nBEGIN\nstmt0;\nstmt1;\nstmt2;\nstmt3;\nEND;"
    );
}

#[test]
fn trigger_create_full() {
    let trg1 = create_trigger("MyTrigger")
        .temporary()
        .before()
        .update()
        .on("table")
        .when("x < y")
        .statement("stmt0")
        .statement("stmt1");
    assert_eq!(
        trg1.to_text(),
        "CREATE TEMP TRIGGER IF NOT EXISTS MyTrigger BEFORE UPDATE ON table\nWHEN x < y\nBEGIN\nstmt0;\nstmt1;\nEND;"
    );
}
