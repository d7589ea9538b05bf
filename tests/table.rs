use sql_builder::schema::{alter_table, create_table, drop_table, Check, Column, ForeignKey};

#[test]
fn drop() {
    let td = drop_table("table").to_text();
    assert_eq!(td, "DROP TABLE table;");
}

#[test]
fn alter_rename_to() {
    let tart = alter_table("table_1").rename_to("table_2").to_text();
    assert_eq!(tart, "ALTER TABLE table_1 RENAME TO table_2;");
}

#[test]
fn alter_rename_col() {
    let tarc = alter_table("table_1").rename_column("col_1", "col_2").to_text();
    assert_eq!(tarc, "ALTER TABLE table_1 RENAME COLUMN col_1 TO col_2;");
}

#[test]
fn alter_drop_col() {
    let atdc = alter_table("table_1").drop_column("col_1").to_text();
    assert_eq!(atdc, "ALTER TABLE table_1 DROP COLUMN col_1;")
}

#[test]
fn alter_add_col() {
    let atac = alter_table("table_1").add_column(Column::new("col_1")).to_text();
    assert_eq!(atac, "ALTER TABLE table_1 ADD COLUMN col_1 INTEGER NOT NULL;");
}

#[test]
fn create_basic() {
    let col_1 = Column::new("id").primary_key();
    let col_2 = Column::new("name").text().nullable();

    let col_1_str = col_1.to_text();
    let col_2_str = col_2.to_text();

    let table_str = format!("CREATE TABLE table_1 IF NOT EXISTS (\n{},\n{}\n);", col_1_str, col_2_str);

    let ct = create_table("table_1").add_column(col_1).add_column(col_2).to_text();
    assert_eq!(ct, table_str);
}

#[test]
fn create_with_foreign_key() {
    let col_1 = Column::new("id").primary_key();
    let col_2 = Column::new("name").text().nullable();
    let col_3 = Column::new("deptId").int_();

    let col_1_str = col_1.to_text();
    let col_2_str = col_2.to_text();
    let col_3_str = col_3.to_text();

    let fk = ForeignKey::new("deptId").references("table_2", "id");
    let fk_str = fk.to_text();

    let table_str = format!(
        "CREATE TABLE table_1 IF NOT EXISTS (\n{},\n{},\n{},\n{}\n);",
        col_1_str, col_2_str, col_3_str, fk_str
    );
    let ct = create_table("table_1")
        .add_column(col_1)
        .add_column(col_2)
        .add_column(col_3)
        .add_foreign_key(fk)
        .to_text();

    assert_eq!(ct, table_str);
}

#[test]
fn create_with_constraint() {
    let col_1 = Column::new("id").primary_key();
    let col_2 = Column::new("name").text().nullable();
    let col_3 = Column::new("age").int_();

    let col_1_str = col_1.to_text();
    let col_2_str = col_2.to_text();
    let col_3_str = col_3.to_text();

    let constraint = Check::new("age > 0 AND age < 150");
    let con_str = constraint.to_text();

    let table_str = format!(
        "CREATE TABLE table_1 IF NOT EXISTS (\n{},\n{},\n{},\n{}\n);",
        col_1_str, col_2_str, col_3_str, con_str
    );
    let ct = create_table("table_1")
        .add_column(col_1)
        .add_column(col_2)
        .add_column(col_3)
        .add_check(constraint)
        .to_text();

    assert_eq!(ct, table_str);
}

#[test]
fn create_full() {
    let col_1 = Column::new("id").primary_key();
    let col_2 = Column::new("name").text().nullable();
    let col_3 = Column::new("deptId").int_();
    let col_4 = Column::new("email").text();
    let col_5 = Column::new("roleId").int_();
    let col_6 = Column::new("holidays").int_();

    let col_1_str = col_1.to_text();
    let col_2_str = col_2.to_text();
    let col_3_str = col_3.to_text();
    let col_4_str = col_4.to_text();
    let col_5_str = col_5.to_text();
    let col_6_str = col_6.to_text();

    let check_1 = Check::new("email LIKE '%@%'");
    let check_2 = Check::new("hoildays >= 0 AND holidays <= 26");
    let check_1_str = check_1.to_text();
    let chesk_2_str = check_2.to_text();

    let fk_1 = ForeignKey::new("deptId").references("table_2", "id");
    let fk_1_str = fk_1.to_text();
    let fk_2 = ForeignKey::new("roleId").references("table_3", "id");
    let fk_2_str = fk_2.to_text();

    let table_str = format!(
        "CREATE TABLE table_1 IF NOT EXISTS (\n{},\n{},\n{},\n{},\n{},\n{},\n{},\n{},\n{},\n{}\n);",
        col_1_str,
        col_2_str,
        col_3_str,
        col_4_str,
        col_5_str,
        col_6_str,
        check_1_str,
        chesk_2_str,
        fk_1_str,
        fk_2_str
    );
    let ct = create_table("table_1")
        .add_column(col_1)
        .add_column(col_2)
        .add_column(col_3)
        .add_column(col_4)
        .add_column(col_5)
        .add_column(col_6)
        .add_check(check_1)
        .add_check(check_2)
        .add_foreign_key(fk_1)
        .add_foreign_key(fk_2)
        .to_text();

    assert_eq!(ct, table_str);
}
