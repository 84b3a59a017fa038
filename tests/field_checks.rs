use matryriska::checks::{
    hex_lower, is_uuid_v4, is_valid_domain, is_valid_dpusername, is_valid_email, is_valid_sql_args, is_valid_text,
    is_valid_text_can_be_null, is_valid_url, is_valid_url_local, is_valid_username, matches_pattern, sha512_string,
    sql_inject,
};
use matryriska::requests::{
    is_value_nature, parse_gravity, parse_i32, parse_score, parse_solved, within_limit, MAX_NAME_LEN,
};

#[test]
fn sha512_known_digests() {
    assert_eq!(
        sha512_string("abc"),
        "ddaf35a193617abacc417349ae20413112e6fa4e89a97ea20a9eeee64b55d39a2192992a274fc1a836ba3c23a3feebbd454d4423643ce80e2a9ac94fa54ca49f"
    );
    assert_eq!(
        sha512_string(""),
        "cf83e1357eefb8bdf1542850d66d8007d620e4050b5715dc83f4a921d36ce9ce47d0d13c5d85f2b0ff8318d2877eec2f63b931bd47417a81a538327af927da3e"
    );
}

#[test]
fn hex_is_lower_case_two_digits_per_byte() {
    assert_eq!(hex_lower(&vec![0x00, 0xab, 0x0f, 0xff]), "00ab0fff");
    assert_eq!(hex_lower(&Vec::new()), "");
}

#[test]
fn uuid_v4_shape() {
    assert!(is_uuid_v4("550e8400-e29b-41d4-a716-446655440000"));
    assert!(!is_uuid_v4("550E8400-E29B-41D4-A716-446655440000"));
    assert!(!is_uuid_v4("550e8400-e29b-11d4-a716-446655440000"));
    assert!(!is_uuid_v4("550e8400e29b41d4a716446655440000"));
    assert!(!is_uuid_v4(""));
}

#[test]
fn text_validators() {
    assert!(is_valid_email("a.b@example.org"));
    assert!(!is_valid_email("no-at-sign.org"));
    assert!(is_valid_username("user_01"));
    assert!(!is_valid_username("ab"));
    assert!(is_valid_dpusername("John Doe"));
    assert!(!is_valid_username("John Doe"));
    assert!(is_valid_text("Hello, world: <ok>"));
    assert!(!is_valid_text("hi"));
    assert!(is_valid_text_can_be_null(""));
    assert!(!is_valid_text_can_be_null("semi;colon"));
    assert!(is_valid_sql_args("x"));
    assert!(!is_valid_sql_args(""));
    assert!(sql_inject("a; DROP TABLE risk"));
    assert!(sql_inject("a # comment"));
    assert!(!sql_inject("plain text"));
    assert!(is_valid_url("https://example.com/path"));
    assert!(!is_valid_url("not a url"));
    assert!(is_valid_url_local("/assets/img.png"));
    assert!(!is_valid_url_local("assets"));
    assert!(is_valid_domain("example.com"));
    assert!(!is_valid_domain("a"));
    assert!(!matches_pattern("(", "anything"));
}

#[test]
fn integer_parsing() {
    assert_eq!(parse_i32("42"), Some(42));
    assert_eq!(parse_i32("-7"), Some(-7));
    assert_eq!(parse_i32("+5"), Some(5));
    assert_eq!(parse_i32("007"), Some(7));
    assert_eq!(parse_i32(""), None);
    assert_eq!(parse_i32("-"), None);
    assert_eq!(parse_i32("+"), None);
    assert_eq!(parse_i32(" 1"), None);
    assert_eq!(parse_i32("1_0"), None);
    assert_eq!(parse_i32("12a"), None);
    assert_eq!(parse_i32("2147483647"), Some(i32::MAX));
    assert_eq!(parse_i32("2147483648"), None);
    assert_eq!(parse_i32("-2147483648"), Some(i32::MIN));
    assert_eq!(parse_i32("-2147483649"), None);
    assert_eq!(parse_i32("99999999999999999999"), None);
    for s in ["0", "1", "-1", "123456", "-99", "+0"] {
        assert_eq!(parse_i32(s), s.parse::<i32>().ok());
    }
}

#[test]
fn bounded_fields() {
    assert_eq!(parse_score("1"), Some(1));
    assert_eq!(parse_score("6"), Some(6));
    assert_eq!(parse_score("0"), None);
    assert_eq!(parse_score("7"), None);
    assert_eq!(parse_score("x"), None);
    assert_eq!(parse_gravity("4"), Some(4));
    assert_eq!(parse_gravity("5"), None);
    assert_eq!(parse_solved("abc"), Some(0));
    assert_eq!(parse_solved("100"), Some(100));
    assert_eq!(parse_solved("101"), None);
    assert_eq!(parse_solved("-1"), None);
    assert!(within_limit(&"a".repeat(255), MAX_NAME_LEN));
    assert!(!within_limit(&"a".repeat(256), MAX_NAME_LEN));
    assert!(!within_limit("é", 1));
    assert!(is_value_nature("processus"));
    assert!(is_value_nature("information"));
    assert!(!is_value_nature("Information"));
}
