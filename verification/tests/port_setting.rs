use echo_chain::port::{parse_port, resolve_port, DEFAULT_PORT};

#[test]
fn parses_plain_numbers() {
    assert_eq!(parse_port("3000"), Some(3000));
    assert_eq!(parse_port("8080"), Some(8080));
    assert_eq!(parse_port("0"), Some(0));
}

#[test]
fn accepts_leading_zeros() {
    assert_eq!(parse_port("00080"), Some(80));
}

#[test]
fn parses_the_largest_port() {
    assert_eq!(parse_port("65535"), Some(65535));
}

#[test]
fn rejects_values_over_the_port_range() {
    assert_eq!(parse_port("65536"), None);
    assert_eq!(parse_port("999999999999999999999"), None);
}

#[test]
fn rejects_empty_and_non_numeric_text() {
    assert_eq!(parse_port(""), None);
    assert_eq!(parse_port("abc"), None);
    assert_eq!(parse_port("30a0"), None);
    assert_eq!(parse_port(" 3000"), None);
    assert_eq!(parse_port("-1"), None);
}

#[test]
fn missing_setting_falls_back_to_the_default() {
    assert_eq!(resolve_port(None), Some(DEFAULT_PORT));
    assert_eq!(resolve_port(None), Some(3000));
}

#[test]
fn present_setting_is_parsed() {
    assert_eq!(resolve_port(Some("8080")), Some(8080));
    assert_eq!(resolve_port(Some("eight")), None);
}
