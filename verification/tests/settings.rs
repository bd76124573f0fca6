use searcher_client::config::{
    parse_u64_decimal, wait_seconds_setting, wait_window_millis, DEFAULT_WAIT_SECONDS,
};

#[test]
fn default_wait_window_is_five_seconds() {
    assert_eq!(DEFAULT_WAIT_SECONDS, 5);
    assert_eq!(wait_seconds_setting(&None), 5);
}

#[test]
fn valid_setting_overrides_default() {
    assert_eq!(wait_seconds_setting(&Some(String::from("7"))), 7);
    assert_eq!(wait_seconds_setting(&Some(String::from("0"))), 0);
    assert_eq!(wait_seconds_setting(&Some(String::from("120"))), 120);
}

#[test]
fn invalid_setting_falls_back_to_default() {
    assert_eq!(wait_seconds_setting(&Some(String::from(""))), 5);
    assert_eq!(wait_seconds_setting(&Some(String::from("abc"))), 5);
    assert_eq!(wait_seconds_setting(&Some(String::from("12x"))), 5);
    assert_eq!(wait_seconds_setting(&Some(String::from("-3"))), 5);
    assert_eq!(wait_seconds_setting(&Some(String::from(" 5"))), 5);
    assert_eq!(
        wait_seconds_setting(&Some(String::from("99999999999999999999999"))),
        5
    );
}

#[test]
fn decimal_parse_exact_values() {
    assert_eq!(parse_u64_decimal("0"), Some(0));
    assert_eq!(parse_u64_decimal("5"), Some(5));
    assert_eq!(parse_u64_decimal("007"), Some(7));
    assert_eq!(parse_u64_decimal("18446744073709551615"), Some(u64::MAX));
    assert_eq!(parse_u64_decimal("18446744073709551616"), None);
    assert_eq!(parse_u64_decimal(""), None);
    assert_eq!(parse_u64_decimal("1 2"), None);
}

#[test]
fn window_scales_to_milliseconds() {
    assert_eq!(wait_window_millis(5), 5000);
    assert_eq!(wait_window_millis(0), 0);
    assert_eq!(wait_window_millis(u64::MAX), u64::MAX);
}
