use dsm_exchange_node::text::{decimal_text, joined, joined3, trim_end_slashes};

#[test]
fn decimal_numerals() {
    assert_eq!(decimal_text(0), "0");
    assert_eq!(decimal_text(9), "9");
    assert_eq!(decimal_text(10), "10");
    assert_eq!(decimal_text(1_000_203), "1000203");
    assert_eq!(decimal_text(u64::MAX), "18446744073709551615");
}

#[test]
fn concatenation() {
    assert_eq!(joined("a", "b"), "ab");
    assert_eq!(joined3("a", "", "c"), "ac");
}

#[test]
fn trailing_slashes_go() {
    assert_eq!(trim_end_slashes("http://a/b//"), "http://a/b");
    assert_eq!(trim_end_slashes("http://a"), "http://a");
    assert_eq!(trim_end_slashes("///"), "");
    assert_eq!(trim_end_slashes(""), "");
    assert_eq!(trim_end_slashes("é/"), "é");
}
