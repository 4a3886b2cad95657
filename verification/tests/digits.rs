use blockchain_asset_querier::digits::{dec_string, lex_less_str, lex_less_u64, parse_dec_u64};

#[test]
fn decimal_text_exact_values() {
    assert_eq!(dec_string(0), "0");
    assert_eq!(dec_string(7), "7");
    assert_eq!(dec_string(10), "10");
    assert_eq!(dec_string(9999), "9999");
    assert_eq!(dec_string(10001), "10001");
    assert_eq!(dec_string(u64::MAX), "18446744073709551615");
}

#[test]
fn lexicographic_order_of_numbers() {
    // The ordering quirk: "10001" sorts before "9999".
    assert!(lex_less_u64(10001, 9999));
    assert!(!lex_less_u64(9999, 10001));
    assert!(lex_less_u64(10001, 10002));
    assert!(!lex_less_u64(10002, 10001));
    assert!(!lex_less_u64(10001, 10001));
    assert!(lex_less_u64(13009, 1301));
    assert!(lex_less_u64(1301, 13010));
}

#[test]
fn lexicographic_order_of_text() {
    assert!(lex_less_str("10001", "9999"));
    assert!(lex_less_str("", "0"));
    assert!(!lex_less_str("0", ""));
    assert!(!lex_less_str("", ""));
    assert!(lex_less_str("abc", "abd"));
    assert!(lex_less_str("ab", "abc"));
    assert!(!lex_less_str("abc", "ab"));
}

#[test]
fn parse_decimal_text() {
    assert_eq!(parse_dec_u64("10001"), Some(10001));
    assert_eq!(parse_dec_u64("0"), Some(0));
    assert_eq!(parse_dec_u64("007"), Some(7));
    assert_eq!(parse_dec_u64("18446744073709551615"), Some(u64::MAX));
    assert_eq!(parse_dec_u64(""), None);
    assert_eq!(parse_dec_u64("12a"), None);
    assert_eq!(parse_dec_u64("-3"), None);
    assert_eq!(parse_dec_u64("18446744073709551616"), None);
    assert_eq!(parse_dec_u64("99999999999999999999999"), None);
}

#[test]
fn decimal_text_round_trip() {
    for n in [0u64, 1, 9, 10, 9999, 10001, 14016, u64::MAX] {
        assert_eq!(parse_dec_u64(&dec_string(n)), Some(n));
    }
}
