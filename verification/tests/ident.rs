//! The identifier validator on its documented edge cases.
use dialect::is_identifier;
use dialect::is_identifier_continue;
use dialect::is_identifier_start;

#[test]
fn empty_name_is_invalid() {
    assert!(!is_identifier(""));
}

#[test]
fn underscore_start_is_valid() {
    assert!(is_identifier("_abc123"));
}

#[test]
fn digit_start_is_invalid() {
    assert!(!is_identifier("1abc"));
    assert!(!is_identifier("9"));
}

#[test]
fn dollar_may_continue_but_not_start() {
    assert!(is_identifier("a$b"));
    assert!(!is_identifier("$ab"));
}

#[test]
fn keywords_are_lexically_valid() {
    assert!(is_identifier("SELECT"));
    assert!(is_identifier("TEMP"));
}

#[test]
fn bytes_above_ascii_pass_anywhere() {
    assert!(is_identifier("héllo"));
    assert!(is_identifier("日本語"));
    assert!(is_identifier("x\u{00e9}"));
}

#[test]
fn punctuation_is_rejected() {
    assert!(!is_identifier("a-b"));
    assert!(!is_identifier("a b"));
    assert!(!is_identifier("a.b"));
}

#[test]
fn single_bytes_classify_as_documented() {
    assert!(is_identifier_start(b'A'));
    assert!(is_identifier_start(b'z'));
    assert!(is_identifier_start(b'_'));
    assert!(is_identifier_start(0x80));
    assert!(!is_identifier_start(b'4'));
    assert!(!is_identifier_start(b'$'));
    assert!(is_identifier_continue(b'$'));
    assert!(is_identifier_continue(b'4'));
    assert!(is_identifier_continue(b'_'));
    assert!(!is_identifier_continue(b'-'));
    assert!(!is_identifier_continue(b' '));
}
