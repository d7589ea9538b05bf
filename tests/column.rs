use sql_builder::schema::{Column, GeneratedColumnType};

#[test]
fn primary_key() {
    let col = Column::new("Id").primary_key();
    assert_eq!(col.to_text(), "Id INTEGER NOT NULL PRIMARY KEY");
}

#[test]
fn nullable() {
    let col = Column::new("Nullable").nullable();
    assert_eq!(col.to_text(), "Nullable INTEGER");
}

#[test]
fn unique() {
    let col = Column::new("UniqueCol").unique();
    assert_eq!(col.to_text(), "UniqueCol INTEGER NOT NULL UNIQUE");
}

#[test]
fn check() {
    let col = Column::new("Col").check("Col > 10");
    assert_eq!(col.to_text(), "Col INTEGER NOT NULL CHECK(Col > 10)");
}

#[test]
fn derfault_value() {
    let col = Column::new("Col").default_value("21");
    assert_eq!(col.to_text(), "Col INTEGER NOT NULL DEFAULT 21");
}

#[test]
fn generated() {
    let col1 = Column::new("Generated_1")
        .primary_key()
        .generated("x + y + 1", GeneratedColumnType::Virtual);
    let col2 = Column::new("Generated_2")
        .default_value("10")
        .generated("x + y + 1", GeneratedColumnType::Stored);
    assert_eq!(col1.is_primary_key(), false);
    assert_eq!(col1.default_val(), None);
    assert_eq!(col1.to_text(), "Generated_1 INTEGER NOT NULL AS (x + y + 1) VIRTUAL");
    assert_eq!(col2.is_primary_key(), false);
    assert_eq!(col2.default_val(), None);
    assert_eq!(col2.to_text(), "Generated_2 INTEGER NOT NULL AS (x + y + 1) STORED");
}

#[test]
fn is_generated() {
    let col1 = Column::new("col1").generated("1 + x", GeneratedColumnType::Stored);
    let col2 = Column::new("col2");

    assert_eq!(col1.is_generated(), true);
    assert_eq!(col2.is_generated(), false);
}
