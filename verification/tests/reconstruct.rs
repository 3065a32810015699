//! Reconstruction round trips and the payload/reverse-table complementarity.
use dialect::TokenType;
use dialect::from_token;
use dialect::keyword_token;
use dialect::kind_from_code;
use dialect::spelling;

fn spellings() -> Vec<&'static str> {
    vec![
        "ABORT",
        "ACTION",
        "ADD",
        "AFTER",
        "ALL",
        "ALTER",
        "ANALYZE",
        "AND",
        "AS",
        "ASC",
        "ATTACH",
        "AUTOINCREMENT",
        "BEFORE",
        "BEGIN",
        "BETWEEN",
        "BY",
        "CASCADE",
        "CASE",
        "CAST",
        "CHECK",
        "COLLATE",
        "COLUMN",
        "COMMIT",
        "CONFLICT",
        "CONSTRAINT",
        "CREATE",
        "CROSS",
        "CURRENT",
        "CURRENT_DATE",
        "CURRENT_TIME",
        "CURRENT_TIMESTAMP",
        "DATABASE",
        "DEFAULT",
        "DEFERRABLE",
        "DEFERRED",
        "DELETE",
        "DESC",
        "DETACH",
        "DISTINCT",
        "DO",
        "DROP",
        "EACH",
        "ELSE",
        "END",
        "ESCAPE",
        "EXCEPT",
        "EXCLUSIVE",
        "EXISTS",
        "EXPLAIN",
        "FAIL",
        "FILTER",
        "FOLLOWING",
        "FOR",
        "FOREIGN",
        "FROM",
        "FULL",
        "GLOB",
        "GROUP",
        "HAVING",
        "IF",
        "IGNORE",
        "IMMEDIATE",
        "IN",
        "INDEX",
        "INDEXED",
        "INITIALLY",
        "INNER",
        "INSERT",
        "INSTEAD",
        "INTERSECT",
        "INTO",
        "IS",
        "ISNULL",
        "JOIN",
        "KEY",
        "LEFT",
        "LIKE",
        "LIMIT",
        "MATCH",
        "NATURAL",
        "NO",
        "NOT",
        "NOTHING",
        "NOTNULL",
        "NULL",
        "OF",
        "OFFSET",
        "ON",
        "OR",
        "ORDER",
        "OUTER",
        "OVER",
        "PARTITION",
        "PLAN",
        "PRAGMA",
        "PRECEDING",
        "PRIMARY",
        "QUERY",
        "RAISE",
        "RANGE",
        "RECURSIVE",
        "REFERENCES",
        "REGEXP",
        "REINDEX",
        "RELEASE",
        "RENAME",
        "REPLACE",
        "RESTRICT",
        "RIGHT",
        "ROLLBACK",
        "ROW",
        "ROWS",
        "SAVEPOINT",
        "SELECT",
        "SET",
        "TABLE",
        "TEMP",
        "TEMPORARY",
        "THEN",
        "TO",
        "TRANSACTION",
        "TRIGGER",
        "UNBOUNDED",
        "UNION",
        "UNIQUE",
        "UPDATE",
        "USING",
        "VACUUM",
        "VALUES",
        "VIEW",
        "VIRTUAL",
        "WHEN",
        "WHERE",
        "WINDOW",
        "WITH",
        "WITHOUT",
    ]
}

#[test]
fn keyword_round_trip() {
    for sp in spellings() {
        let k = keyword_token(sp.as_bytes()).unwrap();
        match k.into_token(sp.as_bytes()) {
            Some(v) => {
                assert_eq!(v, sp);
                assert_eq!(from_token(k.code(), Some(v)), sp);
            }
            None => {
                let rec = from_token(k.code(), None);
                assert_eq!(keyword_token(rec.as_bytes()), Some(k));
                assert!(k.into_token(rec.as_bytes()).is_none());
            }
        }
    }
}

#[test]
fn payload_free_keyword_kinds_match_reverse_table() {
    for sp in spellings() {
        let k = keyword_token(sp.as_bytes()).unwrap();
        let payload_free = k.into_token(sp.as_bytes()).is_none();
        assert_eq!(payload_free, spelling(k).is_some());
    }
}

#[test]
fn reconstructs_single_spelling_keywords() {
    assert_eq!(from_token(TokenType::TK_BEGIN.code(), None), "BEGIN");
    assert_eq!(from_token(TokenType::TK_ABORT.code(), None), "ABORT");
    assert_eq!(from_token(TokenType::TK_COLUMNKW.code(), None), "COLUMN");
    assert_eq!(from_token(TokenType::TK_AUTOINCR.code(), None), "AUTOINCREMENT");
    assert_eq!(from_token(TokenType::TK_WITHOUT.code(), None), "WITHOUT");
}

#[test]
fn temp_reconstructs_to_its_canonical_spelling() {
    assert_eq!(from_token(TokenType::TK_TEMP.code(), None), "TEMP");
}

#[test]
fn payload_is_returned_verbatim() {
    assert_eq!(from_token(TokenType::TK_ID.code(), Some("my_table".to_string())), "my_table");
    assert_eq!(from_token(TokenType::TK_JOIN_KW.code(), Some("LEFT".to_string())), "LEFT");
    assert_eq!(from_token(TokenType::TK_SELECT.code(), Some("anything".to_string())), "anything");
}

#[test]
fn codes_identify_kinds() {
    for sp in spellings() {
        let k = keyword_token(sp.as_bytes()).unwrap();
        assert_eq!(kind_from_code(k.code()), Some(k));
    }
    assert_eq!(kind_from_code(0), None);
    assert_eq!(kind_from_code(60000), None);
}

#[test]
fn payload_bearing_kinds_have_no_canonical_spelling() {
    for k in [
        TokenType::TK_JOIN_KW,
        TokenType::TK_LIKE_KW,
        TokenType::TK_CTIME_KW,
        TokenType::TK_ID,
        TokenType::TK_STRING,
        TokenType::TK_VARIABLE,
        TokenType::TK_INTEGER,
        TokenType::TK_FLOAT,
        TokenType::TK_BLOB,
        TokenType::TK_ANY,
    ] {
        assert!(spelling(k).is_none());
    }
}

#[test]
fn single_spelling_kinds_have_a_canonical_spelling() {
    assert_eq!(spelling(TokenType::TK_SELECT), Some("SELECT"));
    assert_eq!(spelling(TokenType::TK_VACUUM), Some("VACUUM"));
}
