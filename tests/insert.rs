use sql_builder::query::insert;

#[test]
fn insert_item() {
    let sql = insert(&["login", "email", "passwd"])
        .into("users")
        .values(&["'Winnie the pooh'", "'pooh@hundredacreforest.org'", "'honey!!!'"])
        .to_text();

    assert_eq!(
        sql,
        "INSERT INTO users(login, email, passwd) VALUES('Winnie the pooh', 'pooh@hundredacreforest.org', 'honey!!!')"
    );
}
