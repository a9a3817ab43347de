use fortunata::text::{
    chars_of, contains, eq_ignore_case, forward_slashes, parse_unsigned, same_text, starts_with,
    to_lower,
};

#[test]
fn strings_are_taken_apart() {
    assert_eq!(chars_of("aß€"), vec!['a', 'ß', '€']);
    assert_eq!(chars_of(""), Vec::<char>::new());
}

#[test]
fn prefixes_are_told() {
    assert!(starts_with("https://example.com", "https://"));
    assert!(!starts_with("http://example.com", "https://"));
    assert!(!starts_with("https:/", "https://"));
    assert!(starts_with("anything", ""));
    assert!(starts_with("", ""));
    assert!(!starts_with("", "a"));
    assert!(!starts_with("HTTPS://example.com", "https://"));
}

#[test]
fn substrings_are_found() {
    assert!(contains("<?xml version=\"1.0\"?><manifest/>", "<?xml"));
    assert!(contains("  \n<?xml?>", "<?xml"));
    assert!(contains("label = \"x\" # <?xml", "<?xml"));
    assert!(!contains("version = \"fort-1.0\"", "<?xml"));
    assert!(!contains("<?xm", "<?xml"));
    assert!(contains("abc", ""));
    assert!(contains("", ""));
    assert!(!contains("", "a"));
    assert!(contains("aab", "ab"));
}

#[test]
fn texts_compare() {
    assert!(same_text("manifest", "manifest"));
    assert!(!same_text("manifest", "Manifest"));
    assert!(!same_text("manifest", "manifests"));
    assert!(same_text("", ""));
}

#[test]
fn slashes_turn_forward() {
    assert_eq!(forward_slashes("a\\b\\c.txt"), "a/b/c.txt");
    assert_eq!(forward_slashes("a/b\\c"), "a/b/c");
    assert_eq!(forward_slashes("plain"), "plain");
    assert_eq!(forward_slashes(""), "");
    assert_eq!(forward_slashes("\\\\"), "//");
}

#[test]
fn letters_are_lowered() {
    assert_eq!(to_lower('A'), 'a');
    assert_eq!(to_lower('Z'), 'z');
    assert_eq!(to_lower('F'), 'f');
    assert_eq!(to_lower('a'), 'a');
    assert_eq!(to_lower('0'), '0');
    assert_eq!(to_lower('@'), '@');
    assert_eq!(to_lower('['), '[');
    assert_eq!(to_lower('É'), 'É');
}

#[test]
fn digests_compare_without_case() {
    assert!(eq_ignore_case("DEADBEEF", "deadbeef"));
    assert!(eq_ignore_case("DeadBeef01", "dEADbEEF01"));
    assert!(!eq_ignore_case("deadbeef", "deadbeee"));
    assert!(!eq_ignore_case("deadbeef", "deadbee"));
    assert!(eq_ignore_case("", ""));
    assert!(!eq_ignore_case("@", "`"));
}

#[test]
fn numbers_are_read() {
    assert_eq!(parse_unsigned("0", 255), Some(0));
    assert_eq!(parse_unsigned("256", u64::MAX), Some(256));
    assert_eq!(parse_unsigned("255", 255), Some(255));
    assert_eq!(parse_unsigned("256", 255), None);
    assert_eq!(parse_unsigned("+7", 255), Some(7));
    assert_eq!(parse_unsigned("007", 255), Some(7));
    assert_eq!(parse_unsigned("", 255), None);
    assert_eq!(parse_unsigned("+", 255), None);
    assert_eq!(parse_unsigned("-1", 255), None);
    assert_eq!(parse_unsigned("++1", 255), None);
    assert_eq!(parse_unsigned("1+", 255), None);
    assert_eq!(parse_unsigned("12a", 255), None);
    assert_eq!(parse_unsigned(" 12", 255), None);
    assert_eq!(parse_unsigned("1.5", 255), None);
    assert_eq!(parse_unsigned("18446744073709551615", u64::MAX), Some(u64::MAX));
    assert_eq!(parse_unsigned("18446744073709551616", u64::MAX), None);
    assert_eq!(parse_unsigned("99999999999999999999999", u64::MAX), None);
    assert_eq!(parse_unsigned("5", 0), None);
    assert_eq!(parse_unsigned("0", 0), Some(0));
}

#[test]
fn numbers_read_as_std_reads_them() {
    for text in ["0", "12", "+12", "255", "256", "-0", "", "+", "0x10", "١٢", "1_000", "00000000000000000000001"] {
        assert_eq!(parse_unsigned(text, 255), text.parse::<u8>().ok().map(u64::from), "{:?}", text);
        assert_eq!(parse_unsigned(text, u64::MAX), text.parse::<u64>().ok(), "{:?}", text);
    }
}
