use instagram_backend::parse::parse_user_id;

#[test]
fn plain_numbers_parse() {
    assert_eq!(parse_user_id("0"), Some(0));
    assert_eq!(parse_user_id("1"), Some(1));
    assert_eq!(parse_user_id("42"), Some(42));
    assert_eq!(parse_user_id("4294967295"), Some(u32::MAX));
}

#[test]
fn leading_zeros_are_just_value() {
    assert_eq!(parse_user_id("007"), Some(7));
    assert_eq!(parse_user_id("000"), Some(0));
}

#[test]
fn non_numbers_are_rejected() {
    assert_eq!(parse_user_id(""), None);
    assert_eq!(parse_user_id("abc"), None);
    assert_eq!(parse_user_id("1a"), None);
    assert_eq!(parse_user_id("a1"), None);
    assert_eq!(parse_user_id("+1"), None);
    assert_eq!(parse_user_id("-1"), None);
    assert_eq!(parse_user_id("1.5"), None);
    assert_eq!(parse_user_id(" 1"), None);
}

#[test]
fn values_beyond_the_id_range_are_rejected() {
    assert_eq!(parse_user_id("4294967296"), None);
    assert_eq!(parse_user_id("99999999999999999999"), None);
}
