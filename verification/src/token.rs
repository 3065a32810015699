//! The closed enumeration of grammar terminal kinds and their stable numeric codes.
use vstd::prelude::*;

verus! {

/// One grammar terminal symbol. Keyword families that share a terminal
/// (join, like, current-time) appear once; the lexeme kept in the token's
/// payload tells their spellings apart.
#[derive(Clone, Copy, Debug, Hash, PartialEq, Eq, Structural)]
pub enum TokenType {
    TK_ABORT,
    TK_ACTION,
    TK_ADD,
    TK_AFTER,
    TK_ALL,
    TK_ALTER,
    TK_ANALYZE,
    TK_AND,
    TK_ANY,
    TK_AS,
    TK_ASC,
    TK_ATTACH,
    TK_AUTOINCR,
    TK_BEFORE,
    TK_BEGIN,
    TK_BETWEEN,
    TK_BLOB,
    TK_BY,
    TK_CASCADE,
    TK_CASE,
    TK_CAST,
    TK_CHECK,
    TK_COLLATE,
    TK_COLUMNKW,
    TK_COMMIT,
    TK_CONFLICT,
    TK_CONSTRAINT,
    TK_CREATE,
    TK_CTIME_KW,
    TK_CURRENT,
    TK_DATABASE,
    TK_DEFAULT,
    TK_DEFERRABLE,
    TK_DEFERRED,
    TK_DELETE,
    TK_DESC,
    TK_DETACH,
    TK_DISTINCT,
    TK_DO,
    TK_DROP,
    TK_EACH,
    TK_ELSE,
    TK_END,
    TK_ESCAPE,
    TK_EXCEPT,
    TK_EXCLUSIVE,
    TK_EXISTS,
    TK_EXPLAIN,
    TK_FAIL,
    TK_FILTER,
    TK_FLOAT,
    TK_FOLLOWING,
    TK_FOR,
    TK_FOREIGN,
    TK_FROM,
    TK_GROUP,
    TK_HAVING,
    TK_ID,
    TK_IF,
    TK_IGNORE,
    TK_IMMEDIATE,
    TK_IN,
    TK_INDEX,
    TK_INDEXED,
    TK_INITIALLY,
    TK_INSERT,
    TK_INSTEAD,
    TK_INTEGER,
    TK_INTERSECT,
    TK_INTO,
    TK_IS,
    TK_ISNULL,
    TK_JOIN,
    TK_JOIN_KW,
    TK_KEY,
    TK_LIKE_KW,
    TK_LIMIT,
    TK_NO,
    TK_NOT,
    TK_NOTHING,
    TK_NOTNULL,
    TK_NULL,
    TK_OF,
    TK_OFFSET,
    TK_ON,
    TK_OR,
    TK_ORDER,
    TK_OVER,
    TK_PARTITION,
    TK_PLAN,
    TK_PRAGMA,
    TK_PRECEDING,
    TK_PRIMARY,
    TK_QUERY,
    TK_RAISE,
    TK_RANGE,
    TK_RECURSIVE,
    TK_REFERENCES,
    TK_REINDEX,
    TK_RELEASE,
    TK_RENAME,
    TK_REPLACE,
    TK_RESTRICT,
    TK_ROLLBACK,
    TK_ROW,
    TK_ROWS,
    TK_SAVEPOINT,
    TK_SELECT,
    TK_SET,
    TK_STRING,
    TK_TABLE,
    TK_TEMP,
    TK_THEN,
    TK_TO,
    TK_TRANSACTION,
    TK_TRIGGER,
    TK_UNBOUNDED,
    TK_UNION,
    TK_UNIQUE,
    TK_UPDATE,
    TK_USING,
    TK_VACUUM,
    TK_VALUES,
    TK_VARIABLE,
    TK_VIEW,
    TK_VIRTUAL,
    TK_WHEN,
    TK_WHERE,
    TK_WINDOW,
    TK_WITH,
    TK_WITHOUT,
}

/// The stable numeric identity of each terminal kind, as a parser table wants it.
pub open spec fn token_code(t: TokenType) -> u16 {
    match t {
        TokenType::TK_ABORT => 1u16,
        TokenType::TK_ACTION => 2u16,
        TokenType::TK_ADD => 3u16,
        TokenType::TK_AFTER => 4u16,
        TokenType::TK_ALL => 5u16,
        TokenType::TK_ALTER => 6u16,
        TokenType::TK_ANALYZE => 7u16,
        TokenType::TK_AND => 8u16,
        TokenType::TK_ANY => 9u16,
        TokenType::TK_AS => 10u16,
        TokenType::TK_ASC => 11u16,
        TokenType::TK_ATTACH => 12u16,
        TokenType::TK_AUTOINCR => 13u16,
        TokenType::TK_BEFORE => 14u16,
        TokenType::TK_BEGIN => 15u16,
        TokenType::TK_BETWEEN => 16u16,
        TokenType::TK_BLOB => 17u16,
        TokenType::TK_BY => 18u16,
        TokenType::TK_CASCADE => 19u16,
        TokenType::TK_CASE => 20u16,
        TokenType::TK_CAST => 21u16,
        TokenType::TK_CHECK => 22u16,
        TokenType::TK_COLLATE => 23u16,
        TokenType::TK_COLUMNKW => 24u16,
        TokenType::TK_COMMIT => 25u16,
        TokenType::TK_CONFLICT => 26u16,
        TokenType::TK_CONSTRAINT => 27u16,
        TokenType::TK_CREATE => 28u16,
        TokenType::TK_CTIME_KW => 29u16,
        TokenType::TK_CURRENT => 30u16,
        TokenType::TK_DATABASE => 31u16,
        TokenType::TK_DEFAULT => 32u16,
        TokenType::TK_DEFERRABLE => 33u16,
        TokenType::TK_DEFERRED => 34u16,
        TokenType::TK_DELETE => 35u16,
        TokenType::TK_DESC => 36u16,
        TokenType::TK_DETACH => 37u16,
        TokenType::TK_DISTINCT => 38u16,
        TokenType::TK_DO => 39u16,
        TokenType::TK_DROP => 40u16,
        TokenType::TK_EACH => 41u16,
        TokenType::TK_ELSE => 42u16,
        TokenType::TK_END => 43u16,
        TokenType::TK_ESCAPE => 44u16,
        TokenType::TK_EXCEPT => 45u16,
        TokenType::TK_EXCLUSIVE => 46u16,
        TokenType::TK_EXISTS => 47u16,
        TokenType::TK_EXPLAIN => 48u16,
        TokenType::TK_FAIL => 49u16,
        TokenType::TK_FILTER => 50u16,
        TokenType::TK_FLOAT => 51u16,
        TokenType::TK_FOLLOWING => 52u16,
        TokenType::TK_FOR => 53u16,
        TokenType::TK_FOREIGN => 54u16,
        TokenType::TK_FROM => 55u16,
        TokenType::TK_GROUP => 56u16,
        TokenType::TK_HAVING => 57u16,
        TokenType::TK_ID => 58u16,
        TokenType::TK_IF => 59u16,
        TokenType::TK_IGNORE => 60u16,
        TokenType::TK_IMMEDIATE => 61u16,
        TokenType::TK_IN => 62u16,
        TokenType::TK_INDEX => 63u16,
        TokenType::TK_INDEXED => 64u16,
        TokenType::TK_INITIALLY => 65u16,
        TokenType::TK_INSERT => 66u16,
        TokenType::TK_INSTEAD => 67u16,
        TokenType::TK_INTEGER => 68u16,
        TokenType::TK_INTERSECT => 69u16,
        TokenType::TK_INTO => 70u16,
        TokenType::TK_IS => 71u16,
        TokenType::TK_ISNULL => 72u16,
        TokenType::TK_JOIN => 73u16,
        TokenType::TK_JOIN_KW => 74u16,
        TokenType::TK_KEY => 75u16,
        TokenType::TK_LIKE_KW => 76u16,
        TokenType::TK_LIMIT => 77u16,
        TokenType::TK_NO => 78u16,
        TokenType::TK_NOT => 79u16,
        TokenType::TK_NOTHING => 80u16,
        TokenType::TK_NOTNULL => 81u16,
        TokenType::TK_NULL => 82u16,
        TokenType::TK_OF => 83u16,
        TokenType::TK_OFFSET => 84u16,
        TokenType::TK_ON => 85u16,
        TokenType::TK_OR => 86u16,
        TokenType::TK_ORDER => 87u16,
        TokenType::TK_OVER => 88u16,
        TokenType::TK_PARTITION => 89u16,
        TokenType::TK_PLAN => 90u16,
        TokenType::TK_PRAGMA => 91u16,
        TokenType::TK_PRECEDING => 92u16,
        TokenType::TK_PRIMARY => 93u16,
        TokenType::TK_QUERY => 94u16,
        TokenType::TK_RAISE => 95u16,
        TokenType::TK_RANGE => 96u16,
        TokenType::TK_RECURSIVE => 97u16,
        TokenType::TK_REFERENCES => 98u16,
        TokenType::TK_REINDEX => 99u16,
        TokenType::TK_RELEASE => 100u16,
        TokenType::TK_RENAME => 101u16,
        TokenType::TK_REPLACE => 102u16,
        TokenType::TK_RESTRICT => 103u16,
        TokenType::TK_ROLLBACK => 104u16,
        TokenType::TK_ROW => 105u16,
        TokenType::TK_ROWS => 106u16,
        TokenType::TK_SAVEPOINT => 107u16,
        TokenType::TK_SELECT => 108u16,
        TokenType::TK_SET => 109u16,
        TokenType::TK_STRING => 110u16,
        TokenType::TK_TABLE => 111u16,
        TokenType::TK_TEMP => 112u16,
        TokenType::TK_THEN => 113u16,
        TokenType::TK_TO => 114u16,
        TokenType::TK_TRANSACTION => 115u16,
        TokenType::TK_TRIGGER => 116u16,
        TokenType::TK_UNBOUNDED => 117u16,
        TokenType::TK_UNION => 118u16,
        TokenType::TK_UNIQUE => 119u16,
        TokenType::TK_UPDATE => 120u16,
        TokenType::TK_USING => 121u16,
        TokenType::TK_VACUUM => 122u16,
        TokenType::TK_VALUES => 123u16,
        TokenType::TK_VARIABLE => 124u16,
        TokenType::TK_VIEW => 125u16,
        TokenType::TK_VIRTUAL => 126u16,
        TokenType::TK_WHEN => 127u16,
        TokenType::TK_WHERE => 128u16,
        TokenType::TK_WINDOW => 129u16,
        TokenType::TK_WITH => 130u16,
        TokenType::TK_WITHOUT => 131u16,
    }
}

impl TokenType {
    /// The stable numeric code of this terminal kind.
    pub fn code(&self) -> (r: u16)
        ensures
            r == token_code(*self),
    {
        match self {
            TokenType::TK_ABORT => 1u16,
            TokenType::TK_ACTION => 2u16,
            TokenType::TK_ADD => 3u16,
            TokenType::TK_AFTER => 4u16,
            TokenType::TK_ALL => 5u16,
            TokenType::TK_ALTER => 6u16,
            TokenType::TK_ANALYZE => 7u16,
            TokenType::TK_AND => 8u16,
            TokenType::TK_ANY => 9u16,
            TokenType::TK_AS => 10u16,
            TokenType::TK_ASC => 11u16,
            TokenType::TK_ATTACH => 12u16,
            TokenType::TK_AUTOINCR => 13u16,
            TokenType::TK_BEFORE => 14u16,
            TokenType::TK_BEGIN => 15u16,
            TokenType::TK_BETWEEN => 16u16,
            TokenType::TK_BLOB => 17u16,
            TokenType::TK_BY => 18u16,
            TokenType::TK_CASCADE => 19u16,
            TokenType::TK_CASE => 20u16,
            TokenType::TK_CAST => 21u16,
            TokenType::TK_CHECK => 22u16,
            TokenType::TK_COLLATE => 23u16,
            TokenType::TK_COLUMNKW => 24u16,
            TokenType::TK_COMMIT => 25u16,
            TokenType::TK_CONFLICT => 26u16,
            TokenType::TK_CONSTRAINT => 27u16,
            TokenType::TK_CREATE => 28u16,
            TokenType::TK_CTIME_KW => 29u16,
            TokenType::TK_CURRENT => 30u16,
            TokenType::TK_DATABASE => 31u16,
            TokenType::TK_DEFAULT => 32u16,
            TokenType::TK_DEFERRABLE => 33u16,
            TokenType::TK_DEFERRED => 34u16,
            TokenType::TK_DELETE => 35u16,
            TokenType::TK_DESC => 36u16,
            TokenType::TK_DETACH => 37u16,
            TokenType::TK_DISTINCT => 38u16,
            TokenType::TK_DO => 39u16,
            TokenType::TK_DROP => 40u16,
            TokenType::TK_EACH => 41u16,
            TokenType::TK_ELSE => 42u16,
            TokenType::TK_END => 43u16,
            TokenType::TK_ESCAPE => 44u16,
            TokenType::TK_EXCEPT => 45u16,
            TokenType::TK_EXCLUSIVE => 46u16,
            TokenType::TK_EXISTS => 47u16,
            TokenType::TK_EXPLAIN => 48u16,
            TokenType::TK_FAIL => 49u16,
            TokenType::TK_FILTER => 50u16,
            TokenType::TK_FLOAT => 51u16,
            TokenType::TK_FOLLOWING => 52u16,
            TokenType::TK_FOR => 53u16,
            TokenType::TK_FOREIGN => 54u16,
            TokenType::TK_FROM => 55u16,
            TokenType::TK_GROUP => 56u16,
            TokenType::TK_HAVING => 57u16,
            TokenType::TK_ID => 58u16,
            TokenType::TK_IF => 59u16,
            TokenType::TK_IGNORE => 60u16,
            TokenType::TK_IMMEDIATE => 61u16,
            TokenType::TK_IN => 62u16,
            TokenType::TK_INDEX => 63u16,
            TokenType::TK_INDEXED => 64u16,
            TokenType::TK_INITIALLY => 65u16,
            TokenType::TK_INSERT => 66u16,
            TokenType::TK_INSTEAD => 67u16,
            TokenType::TK_INTEGER => 68u16,
            TokenType::TK_INTERSECT => 69u16,
            TokenType::TK_INTO => 70u16,
            TokenType::TK_IS => 71u16,
            TokenType::TK_ISNULL => 72u16,
            TokenType::TK_JOIN => 73u16,
            TokenType::TK_JOIN_KW => 74u16,
            TokenType::TK_KEY => 75u16,
            TokenType::TK_LIKE_KW => 76u16,
            TokenType::TK_LIMIT => 77u16,
            TokenType::TK_NO => 78u16,
            TokenType::TK_NOT => 79u16,
            TokenType::TK_NOTHING => 80u16,
            TokenType::TK_NOTNULL => 81u16,
            TokenType::TK_NULL => 82u16,
            TokenType::TK_OF => 83u16,
            TokenType::TK_OFFSET => 84u16,
            TokenType::TK_ON => 85u16,
            TokenType::TK_OR => 86u16,
            TokenType::TK_ORDER => 87u16,
            TokenType::TK_OVER => 88u16,
            TokenType::TK_PARTITION => 89u16,
            TokenType::TK_PLAN => 90u16,
            TokenType::TK_PRAGMA => 91u16,
            TokenType::TK_PRECEDING => 92u16,
            TokenType::TK_PRIMARY => 93u16,
            TokenType::TK_QUERY => 94u16,
            TokenType::TK_RAISE => 95u16,
            TokenType::TK_RANGE => 96u16,
            TokenType::TK_RECURSIVE => 97u16,
            TokenType::TK_REFERENCES => 98u16,
            TokenType::TK_REINDEX => 99u16,
            TokenType::TK_RELEASE => 100u16,
            TokenType::TK_RENAME => 101u16,
            TokenType::TK_REPLACE => 102u16,
            TokenType::TK_RESTRICT => 103u16,
            TokenType::TK_ROLLBACK => 104u16,
            TokenType::TK_ROW => 105u16,
            TokenType::TK_ROWS => 106u16,
            TokenType::TK_SAVEPOINT => 107u16,
            TokenType::TK_SELECT => 108u16,
            TokenType::TK_SET => 109u16,
            TokenType::TK_STRING => 110u16,
            TokenType::TK_TABLE => 111u16,
            TokenType::TK_TEMP => 112u16,
            TokenType::TK_THEN => 113u16,
            TokenType::TK_TO => 114u16,
            TokenType::TK_TRANSACTION => 115u16,
            TokenType::TK_TRIGGER => 116u16,
            TokenType::TK_UNBOUNDED => 117u16,
            TokenType::TK_UNION => 118u16,
            TokenType::TK_UNIQUE => 119u16,
            TokenType::TK_UPDATE => 120u16,
            TokenType::TK_USING => 121u16,
            TokenType::TK_VACUUM => 122u16,
            TokenType::TK_VALUES => 123u16,
            TokenType::TK_VARIABLE => 124u16,
            TokenType::TK_VIEW => 125u16,
            TokenType::TK_VIRTUAL => 126u16,
            TokenType::TK_WHEN => 127u16,
            TokenType::TK_WHERE => 128u16,
            TokenType::TK_WINDOW => 129u16,
            TokenType::TK_WITH => 130u16,
            TokenType::TK_WITHOUT => 131u16,
        }
    }
}

} // verus!
