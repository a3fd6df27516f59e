use browser_use::text::{chars_of, decimal_string, str_contains, str_starts_with};

#[test]
fn decimals() {
    assert_eq!(decimal_string(0), "0");
    assert_eq!(decimal_string(7), "7");
    assert_eq!(decimal_string(10), "10");
    assert_eq!(decimal_string(65535), "65535");
}

#[test]
fn searching() {
    assert!(str_contains("abcdef", "cde"));
    assert!(str_contains("abc", ""));
    assert!(!str_contains("abc", "abcd"));
    assert!(!str_contains("abcabd", "abe"));
    assert!(str_contains("héllo wörld", "ö"));
    assert!(str_starts_with("# Title", "# "));
    assert!(!str_starts_with("#Title", "# "));
    assert_eq!(chars_of("hé"), vec!['h', 'é']);
}
