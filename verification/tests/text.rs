use docuglot::text::{
    decimal_text, find, parse_length, same_bytes, signed_decimal_text, split_once,
};

#[test]
fn find_gives_the_first_occurrence() {
    assert_eq!(find(b"abcabc", b"c"), Some(2));
    assert_eq!(find(b"abcabc", b"bc"), Some(1));
    assert_eq!(find(b"abc", b"d"), None);
    assert_eq!(find(b"", b"d"), None);
    assert_eq!(find(b"ab", b"abc"), None);
    assert_eq!(find(b"\r\n\r\r\n\r\n", b"\r\n\r\n"), Some(3));
}

#[test]
fn same_bytes_compares_lengths_too() {
    assert!(same_bytes(b"ab", b"ab"));
    assert!(!same_bytes(b"ab", b"abc"));
    assert!(!same_bytes(b"ab", b"aB"));
    assert!(same_bytes(b"", b""));
}

#[test]
fn split_once_splits_at_the_first_delimiter() {
    assert_eq!(split_once(b"a: b: c", b": "), (&b"a"[..], Some(&b"b: c"[..])));
    assert_eq!(split_once(b"a:b", b": "), (&b"a:b"[..], None));
    assert_eq!(split_once(b": ", b": "), (&b""[..], Some(&b""[..])));
}

#[test]
fn numbers_are_written_in_decimal() {
    assert_eq!(decimal_text(0), "0");
    assert_eq!(decimal_text(120), "120");
    assert_eq!(decimal_text(u64::MAX), "18446744073709551615");
    assert_eq!(signed_decimal_text(0), "0");
    assert_eq!(signed_decimal_text(-32700), "-32700");
    assert_eq!(signed_decimal_text(i64::MIN), "-9223372036854775808");
    assert_eq!(signed_decimal_text(i64::MAX), "9223372036854775807");
}

#[test]
fn lengths_are_parsed() {
    assert_eq!(parse_length(b"0"), Some(0));
    assert_eq!(parse_length(b"+12"), Some(12));
    assert_eq!(parse_length(b"007"), Some(7));
    assert_eq!(parse_length(b""), None);
    assert_eq!(parse_length(b"+"), None);
    assert_eq!(parse_length(b"++1"), None);
    assert_eq!(parse_length(b"-1"), None);
    assert_eq!(parse_length(b" 1"), None);
    assert_eq!(parse_length(b"1a"), None);
    assert_eq!(parse_length(usize::MAX.to_string().as_bytes()), Some(usize::MAX));
    assert_eq!(parse_length(b"99999999999999999999999"), None);
}
