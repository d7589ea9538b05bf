use sql_builder::query::update;

#[test]
fn update_item() {
    let sql = update("users")
        .set(&[("login", "'a'"), ("email", "'a@a'"), ("passwd", "'c'")])
        .where_("userId = 4")
        .to_text();
    assert_eq!(sql, "UPDATE users SET login = 'a', email = 'a@a', passwd = 'c' WHERE userId = 4");
}

#[test]
fn update_item_where() {
    let sql = update("transactions")
        .set(&[("active", "0")])
        .where_("amount > 100")
        .and("amount < 1000")
        .or("customerId = 7")
        .to_text();

    assert_eq!(
        sql,
        "UPDATE transactions SET active = 0 WHERE amount > 100 AND amount < 1000 OR customerId = 7"
    );
}
