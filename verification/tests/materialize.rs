//! The materializer's payload rule: which kinds keep the scanned text.
use dialect::TokenType;
use dialect::from_bytes;

#[test]
fn string_literal_kind_attaches_the_decoded_bytes() {
    let t = TokenType::TK_STRING.into_token(b"'hello'");
    assert_eq!(t, Some("'hello'".to_string()));
}

#[test]
fn fixed_keyword_kinds_attach_no_payload() {
    assert_eq!(TokenType::TK_BEGIN.into_token(b"BEGIN"), None);
    assert_eq!(TokenType::TK_SELECT.into_token(b"SELECT"), None);
    assert_eq!(TokenType::TK_TEMP.into_token(b"TEMPORARY"), None);
    assert_eq!(TokenType::TK_WITHOUT.into_token(b"WITHOUT"), None);
}

#[test]
fn family_kinds_keep_the_distinguishing_lexeme() {
    assert_eq!(TokenType::TK_JOIN_KW.into_token(b"LEFT"), Some("LEFT".to_string()));
    assert_eq!(TokenType::TK_JOIN_KW.into_token(b"RIGHT"), Some("RIGHT".to_string()));
    assert_eq!(TokenType::TK_LIKE_KW.into_token(b"MATCH"), Some("MATCH".to_string()));
    assert_eq!(
        TokenType::TK_CTIME_KW.into_token(b"CURRENT_DATE"),
        Some("CURRENT_DATE".to_string()),
    );
}

#[test]
fn value_kinds_keep_their_text() {
    assert_eq!(TokenType::TK_INTEGER.into_token(b"42"), Some("42".to_string()));
    assert_eq!(TokenType::TK_FLOAT.into_token(b"1.5e3"), Some("1.5e3".to_string()));
    assert_eq!(TokenType::TK_VARIABLE.into_token(b"?1"), Some("?1".to_string()));
    assert_eq!(TokenType::TK_ID.into_token(b"my_table"), Some("my_table".to_string()));
    assert_eq!(TokenType::TK_BLOB.into_token(b"x'00ff'"), Some("x'00ff'".to_string()));
    assert_eq!(TokenType::TK_ANY.into_token(b"token"), Some("token".to_string()));
}

#[test]
fn multibyte_payload_is_copied_exactly() {
    let text = "h\u{00e9}llo";
    assert_eq!(TokenType::TK_ID.into_token(text.as_bytes()), Some(text.to_string()));
}

#[test]
fn from_bytes_copies_the_span() {
    assert_eq!(from_bytes(b"abc"), "abc");
    assert_eq!(from_bytes("日本".as_bytes()), "日本");
    assert_eq!(from_bytes(b""), "");
}
