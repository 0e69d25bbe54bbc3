use sqlx_meta::{screaming_snake_case, table_case};

#[test]
fn table_case_pascal() {
    assert_eq!(table_case("FooBar"), "foo_bar");
}

#[test]
fn table_case_camel() {
    assert_eq!(table_case("userAccount"), "user_account");
}

#[test]
fn table_case_acronym() {
    assert_eq!(table_case("HTTPServer"), "http_server");
}

#[test]
fn table_case_single_letter() {
    assert_eq!(table_case("A"), "a");
}

#[test]
fn table_case_already_lower() {
    assert_eq!(table_case("user"), "user");
}

#[test]
fn table_case_after_digit() {
    assert_eq!(table_case("User2Fa"), "user2_fa");
}

#[test]
fn table_case_no_pluralization() {
    assert_eq!(table_case("Order"), "order");
    assert_eq!(table_case("UserAccount"), "user_account");
}

#[test]
fn table_case_deterministic() {
    let a = table_case("CustomerOrder");
    let b = table_case("CustomerOrder");
    assert_eq!(a, b);
    assert_eq!(a, "customer_order");
}

#[test]
fn screaming_snake_pascal() {
    assert_eq!(screaming_snake_case("FooBar"), "FOO_BAR");
}

#[test]
fn screaming_snake_camel() {
    assert_eq!(screaming_snake_case("userAccount"), "USER_ACCOUNT");
}

#[test]
fn screaming_snake_keeps_underscores() {
    assert_eq!(screaming_snake_case("foo_bar"), "FOO_BAR");
}

#[test]
fn table_case_empty_identifier() {
    assert_eq!(table_case(""), "");
    assert_eq!(screaming_snake_case(""), "");
}
