//! Classification of every keyword spelling, and of what is none.
use dialect::MAX_KEYWORD_LEN;
use dialect::TokenType;
use dialect::keyword_token;

fn table() -> Vec<(&'static str, TokenType)> {
    vec![
        ("ABORT", TokenType::TK_ABORT),
        ("ACTION", TokenType::TK_ACTION),
        ("ADD", TokenType::TK_ADD),
        ("AFTER", TokenType::TK_AFTER),
        ("ALL", TokenType::TK_ALL),
        ("ALTER", TokenType::TK_ALTER),
        ("ANALYZE", TokenType::TK_ANALYZE),
        ("AND", TokenType::TK_AND),
        ("AS", TokenType::TK_AS),
        ("ASC", TokenType::TK_ASC),
        ("ATTACH", TokenType::TK_ATTACH),
        ("AUTOINCREMENT", TokenType::TK_AUTOINCR),
        ("BEFORE", TokenType::TK_BEFORE),
        ("BEGIN", TokenType::TK_BEGIN),
        ("BETWEEN", TokenType::TK_BETWEEN),
        ("BY", TokenType::TK_BY),
        ("CASCADE", TokenType::TK_CASCADE),
        ("CASE", TokenType::TK_CASE),
        ("CAST", TokenType::TK_CAST),
        ("CHECK", TokenType::TK_CHECK),
        ("COLLATE", TokenType::TK_COLLATE),
        ("COLUMN", TokenType::TK_COLUMNKW),
        ("COMMIT", TokenType::TK_COMMIT),
        ("CONFLICT", TokenType::TK_CONFLICT),
        ("CONSTRAINT", TokenType::TK_CONSTRAINT),
        ("CREATE", TokenType::TK_CREATE),
        ("CROSS", TokenType::TK_JOIN_KW),
        ("CURRENT", TokenType::TK_CURRENT),
        ("CURRENT_DATE", TokenType::TK_CTIME_KW),
        ("CURRENT_TIME", TokenType::TK_CTIME_KW),
        ("CURRENT_TIMESTAMP", TokenType::TK_CTIME_KW),
        ("DATABASE", TokenType::TK_DATABASE),
        ("DEFAULT", TokenType::TK_DEFAULT),
        ("DEFERRABLE", TokenType::TK_DEFERRABLE),
        ("DEFERRED", TokenType::TK_DEFERRED),
        ("DELETE", TokenType::TK_DELETE),
        ("DESC", TokenType::TK_DESC),
        ("DETACH", TokenType::TK_DETACH),
        ("DISTINCT", TokenType::TK_DISTINCT),
        ("DO", TokenType::TK_DO),
        ("DROP", TokenType::TK_DROP),
        ("EACH", TokenType::TK_EACH),
        ("ELSE", TokenType::TK_ELSE),
        ("END", TokenType::TK_END),
        ("ESCAPE", TokenType::TK_ESCAPE),
        ("EXCEPT", TokenType::TK_EXCEPT),
        ("EXCLUSIVE", TokenType::TK_EXCLUSIVE),
        ("EXISTS", TokenType::TK_EXISTS),
        ("EXPLAIN", TokenType::TK_EXPLAIN),
        ("FAIL", TokenType::TK_FAIL),
        ("FILTER", TokenType::TK_FILTER),
        ("FOLLOWING", TokenType::TK_FOLLOWING),
        ("FOR", TokenType::TK_FOR),
        ("FOREIGN", TokenType::TK_FOREIGN),
        ("FROM", TokenType::TK_FROM),
        ("FULL", TokenType::TK_JOIN_KW),
        ("GLOB", TokenType::TK_LIKE_KW),
        ("GROUP", TokenType::TK_GROUP),
        ("HAVING", TokenType::TK_HAVING),
        ("IF", TokenType::TK_IF),
        ("IGNORE", TokenType::TK_IGNORE),
        ("IMMEDIATE", TokenType::TK_IMMEDIATE),
        ("IN", TokenType::TK_IN),
        ("INDEX", TokenType::TK_INDEX),
        ("INDEXED", TokenType::TK_INDEXED),
        ("INITIALLY", TokenType::TK_INITIALLY),
        ("INNER", TokenType::TK_JOIN_KW),
        ("INSERT", TokenType::TK_INSERT),
        ("INSTEAD", TokenType::TK_INSTEAD),
        ("INTERSECT", TokenType::TK_INTERSECT),
        ("INTO", TokenType::TK_INTO),
        ("IS", TokenType::TK_IS),
        ("ISNULL", TokenType::TK_ISNULL),
        ("JOIN", TokenType::TK_JOIN),
        ("KEY", TokenType::TK_KEY),
        ("LEFT", TokenType::TK_JOIN_KW),
        ("LIKE", TokenType::TK_LIKE_KW),
        ("LIMIT", TokenType::TK_LIMIT),
        ("MATCH", TokenType::TK_LIKE_KW),
        ("NATURAL", TokenType::TK_JOIN_KW),
        ("NO", TokenType::TK_NO),
        ("NOT", TokenType::TK_NOT),
        ("NOTHING", TokenType::TK_NOTHING),
        ("NOTNULL", TokenType::TK_NOTNULL),
        ("NULL", TokenType::TK_NULL),
        ("OF", TokenType::TK_OF),
        ("OFFSET", TokenType::TK_OFFSET),
        ("ON", TokenType::TK_ON),
        ("OR", TokenType::TK_OR),
        ("ORDER", TokenType::TK_ORDER),
        ("OUTER", TokenType::TK_JOIN_KW),
        ("OVER", TokenType::TK_OVER),
        ("PARTITION", TokenType::TK_PARTITION),
        ("PLAN", TokenType::TK_PLAN),
        ("PRAGMA", TokenType::TK_PRAGMA),
        ("PRECEDING", TokenType::TK_PRECEDING),
        ("PRIMARY", TokenType::TK_PRIMARY),
        ("QUERY", TokenType::TK_QUERY),
        ("RAISE", TokenType::TK_RAISE),
        ("RANGE", TokenType::TK_RANGE),
        ("RECURSIVE", TokenType::TK_RECURSIVE),
        ("REFERENCES", TokenType::TK_REFERENCES),
        ("REGEXP", TokenType::TK_LIKE_KW),
        ("REINDEX", TokenType::TK_REINDEX),
        ("RELEASE", TokenType::TK_RELEASE),
        ("RENAME", TokenType::TK_RENAME),
        ("REPLACE", TokenType::TK_REPLACE),
        ("RESTRICT", TokenType::TK_RESTRICT),
        ("RIGHT", TokenType::TK_JOIN_KW),
        ("ROLLBACK", TokenType::TK_ROLLBACK),
        ("ROW", TokenType::TK_ROW),
        ("ROWS", TokenType::TK_ROWS),
        ("SAVEPOINT", TokenType::TK_SAVEPOINT),
        ("SELECT", TokenType::TK_SELECT),
        ("SET", TokenType::TK_SET),
        ("TABLE", TokenType::TK_TABLE),
        ("TEMP", TokenType::TK_TEMP),
        ("TEMPORARY", TokenType::TK_TEMP),
        ("THEN", TokenType::TK_THEN),
        ("TO", TokenType::TK_TO),
        ("TRANSACTION", TokenType::TK_TRANSACTION),
        ("TRIGGER", TokenType::TK_TRIGGER),
        ("UNBOUNDED", TokenType::TK_UNBOUNDED),
        ("UNION", TokenType::TK_UNION),
        ("UNIQUE", TokenType::TK_UNIQUE),
        ("UPDATE", TokenType::TK_UPDATE),
        ("USING", TokenType::TK_USING),
        ("VACUUM", TokenType::TK_VACUUM),
        ("VALUES", TokenType::TK_VALUES),
        ("VIEW", TokenType::TK_VIEW),
        ("VIRTUAL", TokenType::TK_VIRTUAL),
        ("WHEN", TokenType::TK_WHEN),
        ("WHERE", TokenType::TK_WHERE),
        ("WINDOW", TokenType::TK_WINDOW),
        ("WITH", TokenType::TK_WITH),
        ("WITHOUT", TokenType::TK_WITHOUT),
    ]
}

#[test]
fn classifies_every_keyword() {
    for (sp, k) in table() {
        assert_eq!(keyword_token(sp.as_bytes()), Some(k));
    }
}

#[test]
fn non_keywords_are_none() {
    assert_eq!(keyword_token(b"MYTABLE"), None);
    assert_eq!(keyword_token(b""), None);
    assert_eq!(keyword_token(b"SELEC"), None);
    assert_eq!(keyword_token(b"SELECTS"), None);
    assert_eq!(keyword_token(b"ABORTED"), None);
    assert_eq!(keyword_token(b"CURRENT_"), None);
}

#[test]
fn lookup_is_case_sensitive() {
    assert_eq!(keyword_token(b"select"), None);
    assert_eq!(keyword_token(b"Select"), None);
    assert_eq!(keyword_token(b"sELECT"), None);
    assert_eq!(keyword_token(b"temporary"), None);
}

#[test]
fn join_family_collapses() {
    for sp in ["LEFT", "RIGHT", "INNER", "NATURAL", "CROSS", "FULL", "OUTER"] {
        assert_eq!(keyword_token(sp.as_bytes()), Some(TokenType::TK_JOIN_KW));
    }
}

#[test]
fn like_family_collapses() {
    for sp in ["LIKE", "GLOB", "REGEXP", "MATCH"] {
        assert_eq!(keyword_token(sp.as_bytes()), Some(TokenType::TK_LIKE_KW));
    }
}

#[test]
fn current_time_family_collapses() {
    for sp in ["CURRENT_DATE", "CURRENT_TIME", "CURRENT_TIMESTAMP"] {
        assert_eq!(keyword_token(sp.as_bytes()), Some(TokenType::TK_CTIME_KW));
    }
}

#[test]
fn temp_spellings_share_one_kind() {
    assert_eq!(keyword_token(b"TEMP"), Some(TokenType::TK_TEMP));
    assert_eq!(keyword_token(b"TEMPORARY"), Some(TokenType::TK_TEMP));
}

#[test]
fn max_keyword_len_is_tight() {
    let mut longest: usize = 0;
    for (sp, _) in table() {
        assert!(sp.len() <= MAX_KEYWORD_LEN);
        if sp.len() > longest {
            longest = sp.len();
        }
    }
    assert_eq!(longest, MAX_KEYWORD_LEN);
}
