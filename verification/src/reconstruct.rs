//! The reverse table: the canonical spelling a terminal kind alone determines.
use vstd::prelude::*;

use crate::materialize::Token;
use crate::token::TokenType;
use crate::token::token_code;

verus! {

/// The canonical uppercase spelling of each kind that is materialized without
/// a payload; `None` for the payload-bearing kinds, whose spelling only the
/// retained lexeme can give.
pub open spec fn canonical_spelling(k: TokenType) -> Option<Seq<char>> {
    match k {
        TokenType::TK_ABORT => Some(seq!['A', 'B', 'O', 'R', 'T']),
        TokenType::TK_ACTION => Some(seq!['A', 'C', 'T', 'I', 'O', 'N']),
        TokenType::TK_ADD => Some(seq!['A', 'D', 'D']),
        TokenType::TK_AFTER => Some(seq!['A', 'F', 'T', 'E', 'R']),
        TokenType::TK_ALL => Some(seq!['A', 'L', 'L']),
        TokenType::TK_ALTER => Some(seq!['A', 'L', 'T', 'E', 'R']),
        TokenType::TK_ANALYZE => Some(seq!['A', 'N', 'A', 'L', 'Y', 'Z', 'E']),
        TokenType::TK_AND => Some(seq!['A', 'N', 'D']),
        TokenType::TK_AS => Some(seq!['A', 'S']),
        TokenType::TK_ASC => Some(seq!['A', 'S', 'C']),
        TokenType::TK_ATTACH => Some(seq!['A', 'T', 'T', 'A', 'C', 'H']),
        TokenType::TK_AUTOINCR => Some(seq!['A', 'U', 'T', 'O', 'I', 'N', 'C', 'R', 'E', 'M', 'E', 'N', 'T']),
        TokenType::TK_BEFORE => Some(seq!['B', 'E', 'F', 'O', 'R', 'E']),
        TokenType::TK_BEGIN => Some(seq!['B', 'E', 'G', 'I', 'N']),
        TokenType::TK_BETWEEN => Some(seq!['B', 'E', 'T', 'W', 'E', 'E', 'N']),
        TokenType::TK_BY => Some(seq!['B', 'Y']),
        TokenType::TK_CASCADE => Some(seq!['C', 'A', 'S', 'C', 'A', 'D', 'E']),
        TokenType::TK_CASE => Some(seq!['C', 'A', 'S', 'E']),
        TokenType::TK_CAST => Some(seq!['C', 'A', 'S', 'T']),
        TokenType::TK_CHECK => Some(seq!['C', 'H', 'E', 'C', 'K']),
        TokenType::TK_COLLATE => Some(seq!['C', 'O', 'L', 'L', 'A', 'T', 'E']),
        TokenType::TK_COLUMNKW => Some(seq!['C', 'O', 'L', 'U', 'M', 'N']),
        TokenType::TK_COMMIT => Some(seq!['C', 'O', 'M', 'M', 'I', 'T']),
        TokenType::TK_CONFLICT => Some(seq!['C', 'O', 'N', 'F', 'L', 'I', 'C', 'T']),
        TokenType::TK_CONSTRAINT => Some(seq!['C', 'O', 'N', 'S', 'T', 'R', 'A', 'I', 'N', 'T']),
        TokenType::TK_CREATE => Some(seq!['C', 'R', 'E', 'A', 'T', 'E']),
        TokenType::TK_CURRENT => Some(seq!['C', 'U', 'R', 'R', 'E', 'N', 'T']),
        TokenType::TK_DATABASE => Some(seq!['D', 'A', 'T', 'A', 'B', 'A', 'S', 'E']),
        TokenType::TK_DEFAULT => Some(seq!['D', 'E', 'F', 'A', 'U', 'L', 'T']),
        TokenType::TK_DEFERRABLE => Some(seq!['D', 'E', 'F', 'E', 'R', 'R', 'A', 'B', 'L', 'E']),
        TokenType::TK_DEFERRED => Some(seq!['D', 'E', 'F', 'E', 'R', 'R', 'E', 'D']),
        TokenType::TK_DELETE => Some(seq!['D', 'E', 'L', 'E', 'T', 'E']),
        TokenType::TK_DESC => Some(seq!['D', 'E', 'S', 'C']),
        TokenType::TK_DETACH => Some(seq!['D', 'E', 'T', 'A', 'C', 'H']),
        TokenType::TK_DISTINCT => Some(seq!['D', 'I', 'S', 'T', 'I', 'N', 'C', 'T']),
        TokenType::TK_DO => Some(seq!['D', 'O']),
        TokenType::TK_DROP => Some(seq!['D', 'R', 'O', 'P']),
        TokenType::TK_EACH => Some(seq!['E', 'A', 'C', 'H']),
        TokenType::TK_ELSE => Some(seq!['E', 'L', 'S', 'E']),
        TokenType::TK_END => Some(seq!['E', 'N', 'D']),
        TokenType::TK_ESCAPE => Some(seq!['E', 'S', 'C', 'A', 'P', 'E']),
        TokenType::TK_EXCEPT => Some(seq!['E', 'X', 'C', 'E', 'P', 'T']),
        TokenType::TK_EXCLUSIVE => Some(seq!['E', 'X', 'C', 'L', 'U', 'S', 'I', 'V', 'E']),
        TokenType::TK_EXISTS => Some(seq!['E', 'X', 'I', 'S', 'T', 'S']),
        TokenType::TK_EXPLAIN => Some(seq!['E', 'X', 'P', 'L', 'A', 'I', 'N']),
        TokenType::TK_FAIL => Some(seq!['F', 'A', 'I', 'L']),
        TokenType::TK_FILTER => Some(seq!['F', 'I', 'L', 'T', 'E', 'R']),
        TokenType::TK_FOLLOWING => Some(seq!['F', 'O', 'L', 'L', 'O', 'W', 'I', 'N', 'G']),
        TokenType::TK_FOR => Some(seq!['F', 'O', 'R']),
        TokenType::TK_FOREIGN => Some(seq!['F', 'O', 'R', 'E', 'I', 'G', 'N']),
        TokenType::TK_FROM => Some(seq!['F', 'R', 'O', 'M']),
        TokenType::TK_GROUP => Some(seq!['G', 'R', 'O', 'U', 'P']),
        TokenType::TK_HAVING => Some(seq!['H', 'A', 'V', 'I', 'N', 'G']),
        TokenType::TK_IF => Some(seq!['I', 'F']),
        TokenType::TK_IGNORE => Some(seq!['I', 'G', 'N', 'O', 'R', 'E']),
        TokenType::TK_IMMEDIATE => Some(seq!['I', 'M', 'M', 'E', 'D', 'I', 'A', 'T', 'E']),
        TokenType::TK_IN => Some(seq!['I', 'N']),
        TokenType::TK_INDEX => Some(seq!['I', 'N', 'D', 'E', 'X']),
        TokenType::TK_INDEXED => Some(seq!['I', 'N', 'D', 'E', 'X', 'E', 'D']),
        TokenType::TK_INITIALLY => Some(seq!['I', 'N', 'I', 'T', 'I', 'A', 'L', 'L', 'Y']),
        TokenType::TK_INSERT => Some(seq!['I', 'N', 'S', 'E', 'R', 'T']),
        TokenType::TK_INSTEAD => Some(seq!['I', 'N', 'S', 'T', 'E', 'A', 'D']),
        TokenType::TK_INTERSECT => Some(seq!['I', 'N', 'T', 'E', 'R', 'S', 'E', 'C', 'T']),
        TokenType::TK_INTO => Some(seq!['I', 'N', 'T', 'O']),
        TokenType::TK_IS => Some(seq!['I', 'S']),
        TokenType::TK_ISNULL => Some(seq!['I', 'S', 'N', 'U', 'L', 'L']),
        TokenType::TK_JOIN => Some(seq!['J', 'O', 'I', 'N']),
        TokenType::TK_KEY => Some(seq!['K', 'E', 'Y']),
        TokenType::TK_LIMIT => Some(seq!['L', 'I', 'M', 'I', 'T']),
        TokenType::TK_NO => Some(seq!['N', 'O']),
        TokenType::TK_NOT => Some(seq!['N', 'O', 'T']),
        TokenType::TK_NOTHING => Some(seq!['N', 'O', 'T', 'H', 'I', 'N', 'G']),
        TokenType::TK_NOTNULL => Some(seq!['N', 'O', 'T', 'N', 'U', 'L', 'L']),
        TokenType::TK_NULL => Some(seq!['N', 'U', 'L', 'L']),
        TokenType::TK_OF => Some(seq!['O', 'F']),
        TokenType::TK_OFFSET => Some(seq!['O', 'F', 'F', 'S', 'E', 'T']),
        TokenType::TK_ON => Some(seq!['O', 'N']),
        TokenType::TK_OR => Some(seq!['O', 'R']),
        TokenType::TK_ORDER => Some(seq!['O', 'R', 'D', 'E', 'R']),
        TokenType::TK_OVER => Some(seq!['O', 'V', 'E', 'R']),
        TokenType::TK_PARTITION => Some(seq!['P', 'A', 'R', 'T', 'I', 'T', 'I', 'O', 'N']),
        TokenType::TK_PLAN => Some(seq!['P', 'L', 'A', 'N']),
        TokenType::TK_PRAGMA => Some(seq!['P', 'R', 'A', 'G', 'M', 'A']),
        TokenType::TK_PRECEDING => Some(seq!['P', 'R', 'E', 'C', 'E', 'D', 'I', 'N', 'G']),
        TokenType::TK_PRIMARY => Some(seq!['P', 'R', 'I', 'M', 'A', 'R', 'Y']),
        TokenType::TK_QUERY => Some(seq!['Q', 'U', 'E', 'R', 'Y']),
        TokenType::TK_RAISE => Some(seq!['R', 'A', 'I', 'S', 'E']),
        TokenType::TK_RANGE => Some(seq!['R', 'A', 'N', 'G', 'E']),
        TokenType::TK_RECURSIVE => Some(seq!['R', 'E', 'C', 'U', 'R', 'S', 'I', 'V', 'E']),
        TokenType::TK_REFERENCES => Some(seq!['R', 'E', 'F', 'E', 'R', 'E', 'N', 'C', 'E', 'S']),
        TokenType::TK_REINDEX => Some(seq!['R', 'E', 'I', 'N', 'D', 'E', 'X']),
        TokenType::TK_RELEASE => Some(seq!['R', 'E', 'L', 'E', 'A', 'S', 'E']),
        TokenType::TK_RENAME => Some(seq!['R', 'E', 'N', 'A', 'M', 'E']),
        TokenType::TK_REPLACE => Some(seq!['R', 'E', 'P', 'L', 'A', 'C', 'E']),
        TokenType::TK_RESTRICT => Some(seq!['R', 'E', 'S', 'T', 'R', 'I', 'C', 'T']),
        TokenType::TK_ROLLBACK => Some(seq!['R', 'O', 'L', 'L', 'B', 'A', 'C', 'K']),
        TokenType::TK_ROW => Some(seq!['R', 'O', 'W']),
        TokenType::TK_ROWS => Some(seq!['R', 'O', 'W', 'S']),
        TokenType::TK_SAVEPOINT => Some(seq!['S', 'A', 'V', 'E', 'P', 'O', 'I', 'N', 'T']),
        TokenType::TK_SELECT => Some(seq!['S', 'E', 'L', 'E', 'C', 'T']),
        TokenType::TK_SET => Some(seq!['S', 'E', 'T']),
        TokenType::TK_TABLE => Some(seq!['T', 'A', 'B', 'L', 'E']),
        TokenType::TK_TEMP => Some(seq!['T', 'E', 'M', 'P']),
        TokenType::TK_THEN => Some(seq!['T', 'H', 'E', 'N']),
        TokenType::TK_TO => Some(seq!['T', 'O']),
        TokenType::TK_TRANSACTION => Some(seq!['T', 'R', 'A', 'N', 'S', 'A', 'C', 'T', 'I', 'O', 'N']),
        TokenType::TK_TRIGGER => Some(seq!['T', 'R', 'I', 'G', 'G', 'E', 'R']),
        TokenType::TK_UNBOUNDED => Some(seq!['U', 'N', 'B', 'O', 'U', 'N', 'D', 'E', 'D']),
        TokenType::TK_UNION => Some(seq!['U', 'N', 'I', 'O', 'N']),
        TokenType::TK_UNIQUE => Some(seq!['U', 'N', 'I', 'Q', 'U', 'E']),
        TokenType::TK_UPDATE => Some(seq!['U', 'P', 'D', 'A', 'T', 'E']),
        TokenType::TK_USING => Some(seq!['U', 'S', 'I', 'N', 'G']),
        TokenType::TK_VACUUM => Some(seq!['V', 'A', 'C', 'U', 'U', 'M']),
        TokenType::TK_VALUES => Some(seq!['V', 'A', 'L', 'U', 'E', 'S']),
        TokenType::TK_VIEW => Some(seq!['V', 'I', 'E', 'W']),
        TokenType::TK_VIRTUAL => Some(seq!['V', 'I', 'R', 'T', 'U', 'A', 'L']),
        TokenType::TK_WHEN => Some(seq!['W', 'H', 'E', 'N']),
        TokenType::TK_WHERE => Some(seq!['W', 'H', 'E', 'R', 'E']),
        TokenType::TK_WINDOW => Some(seq!['W', 'I', 'N', 'D', 'O', 'W']),
        TokenType::TK_WITH => Some(seq!['W', 'I', 'T', 'H']),
        TokenType::TK_WITHOUT => Some(seq!['W', 'I', 'T', 'H', 'O', 'U', 'T']),
        TokenType::TK_ANY => None,
        TokenType::TK_BLOB => None,
        TokenType::TK_CTIME_KW => None,
        TokenType::TK_FLOAT => None,
        TokenType::TK_ID => None,
        TokenType::TK_INTEGER => None,
        TokenType::TK_JOIN_KW => None,
        TokenType::TK_LIKE_KW => None,
        TokenType::TK_STRING => None,
        TokenType::TK_VARIABLE => None,
    }
}

/// The canonical spelling of `k`, as a borrowed string.
pub fn spelling(k: TokenType) -> (r: Option<&'static str>)
    ensures
        match canonical_spelling(k) {
            Some(s) => r matches Some(rs) && rs@ == s,
            None => r is None,
        },
{
    match k {
        TokenType::TK_ABORT => {
            let s = "ABORT";
            proof {
                reveal_strlit("ABORT");
                assert(s@ =~= seq!['A', 'B', 'O', 'R', 'T']);
            }
            Some(s)
        },
        TokenType::TK_ACTION => {
            let s = "ACTION";
            proof {
                reveal_strlit("ACTION");
                assert(s@ =~= seq!['A', 'C', 'T', 'I', 'O', 'N']);
            }
            Some(s)
        },
        TokenType::TK_ADD => {
            let s = "ADD";
            proof {
                reveal_strlit("ADD");
                assert(s@ =~= seq!['A', 'D', 'D']);
            }
            Some(s)
        },
        TokenType::TK_AFTER => {
            let s = "AFTER";
            proof {
                reveal_strlit("AFTER");
                assert(s@ =~= seq!['A', 'F', 'T', 'E', 'R']);
            }
            Some(s)
        },
        TokenType::TK_ALL => {
            let s = "ALL";
            proof {
                reveal_strlit("ALL");
                assert(s@ =~= seq!['A', 'L', 'L']);
            }
            Some(s)
        },
        TokenType::TK_ALTER => {
            let s = "ALTER";
            proof {
                reveal_strlit("ALTER");
                assert(s@ =~= seq!['A', 'L', 'T', 'E', 'R']);
            }
            Some(s)
        },
        TokenType::TK_ANALYZE => {
            let s = "ANALYZE";
            proof {
                reveal_strlit("ANALYZE");
                assert(s@ =~= seq!['A', 'N', 'A', 'L', 'Y', 'Z', 'E']);
            }
            Some(s)
        },
        TokenType::TK_AND => {
            let s = "AND";
            proof {
                reveal_strlit("AND");
                assert(s@ =~= seq!['A', 'N', 'D']);
            }
            Some(s)
        },
        TokenType::TK_AS => {
            let s = "AS";
            proof {
                reveal_strlit("AS");
                assert(s@ =~= seq!['A', 'S']);
            }
            Some(s)
        },
        TokenType::TK_ASC => {
            let s = "ASC";
            proof {
                reveal_strlit("ASC");
                assert(s@ =~= seq!['A', 'S', 'C']);
            }
            Some(s)
        },
        TokenType::TK_ATTACH => {
            let s = "ATTACH";
            proof {
                reveal_strlit("ATTACH");
                assert(s@ =~= seq!['A', 'T', 'T', 'A', 'C', 'H']);
            }
            Some(s)
        },
        TokenType::TK_AUTOINCR => {
            let s = "AUTOINCREMENT";
            proof {
                reveal_strlit("AUTOINCREMENT");
                assert(s@ =~= seq!['A', 'U', 'T', 'O', 'I', 'N', 'C', 'R', 'E', 'M', 'E', 'N', 'T']);
            }
            Some(s)
        },
        TokenType::TK_BEFORE => {
            let s = "BEFORE";
            proof {
                reveal_strlit("BEFORE");
                assert(s@ =~= seq!['B', 'E', 'F', 'O', 'R', 'E']);
            }
            Some(s)
        },
        TokenType::TK_BEGIN => {
            let s = "BEGIN";
            proof {
                reveal_strlit("BEGIN");
                assert(s@ =~= seq!['B', 'E', 'G', 'I', 'N']);
            }
            Some(s)
        },
        TokenType::TK_BETWEEN => {
            let s = "BETWEEN";
            proof {
                reveal_strlit("BETWEEN");
                assert(s@ =~= seq!['B', 'E', 'T', 'W', 'E', 'E', 'N']);
            }
            Some(s)
        },
        TokenType::TK_BY => {
            let s = "BY";
            proof {
                reveal_strlit("BY");
                assert(s@ =~= seq!['B', 'Y']);
            }
            Some(s)
        },
        TokenType::TK_CASCADE => {
            let s = "CASCADE";
            proof {
                reveal_strlit("CASCADE");
                assert(s@ =~= seq!['C', 'A', 'S', 'C', 'A', 'D', 'E']);
            }
            Some(s)
        },
        TokenType::TK_CASE => {
            let s = "CASE";
            proof {
                reveal_strlit("CASE");
                assert(s@ =~= seq!['C', 'A', 'S', 'E']);
            }
            Some(s)
        },
        TokenType::TK_CAST => {
            let s = "CAST";
            proof {
                reveal_strlit("CAST");
                assert(s@ =~= seq!['C', 'A', 'S', 'T']);
            }
            Some(s)
        },
        TokenType::TK_CHECK => {
            let s = "CHECK";
            proof {
                reveal_strlit("CHECK");
                assert(s@ =~= seq!['C', 'H', 'E', 'C', 'K']);
            }
            Some(s)
        },
        TokenType::TK_COLLATE => {
            let s = "COLLATE";
            proof {
                reveal_strlit("COLLATE");
                assert(s@ =~= seq!['C', 'O', 'L', 'L', 'A', 'T', 'E']);
            }
            Some(s)
        },
        TokenType::TK_COLUMNKW => {
            let s = "COLUMN";
            proof {
                reveal_strlit("COLUMN");
                assert(s@ =~= seq!['C', 'O', 'L', 'U', 'M', 'N']);
            }
            Some(s)
        },
        TokenType::TK_COMMIT => {
            let s = "COMMIT";
            proof {
                reveal_strlit("COMMIT");
                assert(s@ =~= seq!['C', 'O', 'M', 'M', 'I', 'T']);
            }
            Some(s)
        },
        TokenType::TK_CONFLICT => {
            let s = "CONFLICT";
            proof {
                reveal_strlit("CONFLICT");
                assert(s@ =~= seq!['C', 'O', 'N', 'F', 'L', 'I', 'C', 'T']);
            }
            Some(s)
        },
        TokenType::TK_CONSTRAINT => {
            let s = "CONSTRAINT";
            proof {
                reveal_strlit("CONSTRAINT");
                assert(s@ =~= seq!['C', 'O', 'N', 'S', 'T', 'R', 'A', 'I', 'N', 'T']);
            }
            Some(s)
        },
        TokenType::TK_CREATE => {
            let s = "CREATE";
            proof {
                reveal_strlit("CREATE");
                assert(s@ =~= seq!['C', 'R', 'E', 'A', 'T', 'E']);
            }
            Some(s)
        },
        TokenType::TK_CURRENT => {
            let s = "CURRENT";
            proof {
                reveal_strlit("CURRENT");
                assert(s@ =~= seq!['C', 'U', 'R', 'R', 'E', 'N', 'T']);
            }
            Some(s)
        },
        TokenType::TK_DATABASE => {
            let s = "DATABASE";
            proof {
                reveal_strlit("DATABASE");
                assert(s@ =~= seq!['D', 'A', 'T', 'A', 'B', 'A', 'S', 'E']);
            }
            Some(s)
        },
        TokenType::TK_DEFAULT => {
            let s = "DEFAULT";
            proof {
                reveal_strlit("DEFAULT");
                assert(s@ =~= seq!['D', 'E', 'F', 'A', 'U', 'L', 'T']);
            }
            Some(s)
        },
        TokenType::TK_DEFERRABLE => {
            let s = "DEFERRABLE";
            proof {
                reveal_strlit("DEFERRABLE");
                assert(s@ =~= seq!['D', 'E', 'F', 'E', 'R', 'R', 'A', 'B', 'L', 'E']);
            }
            Some(s)
        },
        TokenType::TK_DEFERRED => {
            let s = "DEFERRED";
            proof {
                reveal_strlit("DEFERRED");
                assert(s@ =~= seq!['D', 'E', 'F', 'E', 'R', 'R', 'E', 'D']);
            }
            Some(s)
        },
        TokenType::TK_DELETE => {
            let s = "DELETE";
            proof {
                reveal_strlit("DELETE");
                assert(s@ =~= seq!['D', 'E', 'L', 'E', 'T', 'E']);
            }
            Some(s)
        },
        TokenType::TK_DESC => {
            let s = "DESC";
            proof {
                reveal_strlit("DESC");
                assert(s@ =~= seq!['D', 'E', 'S', 'C']);
            }
            Some(s)
        },
        TokenType::TK_DETACH => {
            let s = "DETACH";
            proof {
                reveal_strlit("DETACH");
                assert(s@ =~= seq!['D', 'E', 'T', 'A', 'C', 'H']);
            }
            Some(s)
        },
        TokenType::TK_DISTINCT => {
            let s = "DISTINCT";
            proof {
                reveal_strlit("DISTINCT");
                assert(s@ =~= seq!['D', 'I', 'S', 'T', 'I', 'N', 'C', 'T']);
            }
            Some(s)
        },
        TokenType::TK_DO => {
            let s = "DO";
            proof {
                reveal_strlit("DO");
                assert(s@ =~= seq!['D', 'O']);
            }
            Some(s)
        },
        TokenType::TK_DROP => {
            let s = "DROP";
            proof {
                reveal_strlit("DROP");
                assert(s@ =~= seq!['D', 'R', 'O', 'P']);
            }
            Some(s)
        },
        TokenType::TK_EACH => {
            let s = "EACH";
            proof {
                reveal_strlit("EACH");
                assert(s@ =~= seq!['E', 'A', 'C', 'H']);
            }
            Some(s)
        },
        TokenType::TK_ELSE => {
            let s = "ELSE";
            proof {
                reveal_strlit("ELSE");
                assert(s@ =~= seq!['E', 'L', 'S', 'E']);
            }
            Some(s)
        },
        TokenType::TK_END => {
            let s = "END";
            proof {
                reveal_strlit("END");
                assert(s@ =~= seq!['E', 'N', 'D']);
            }
            Some(s)
        },
        TokenType::TK_ESCAPE => {
            let s = "ESCAPE";
            proof {
                reveal_strlit("ESCAPE");
                assert(s@ =~= seq!['E', 'S', 'C', 'A', 'P', 'E']);
            }
            Some(s)
        },
        TokenType::TK_EXCEPT => {
            let s = "EXCEPT";
            proof {
                reveal_strlit("EXCEPT");
                assert(s@ =~= seq!['E', 'X', 'C', 'E', 'P', 'T']);
            }
            Some(s)
        },
        TokenType::TK_EXCLUSIVE => {
            let s = "EXCLUSIVE";
            proof {
                reveal_strlit("EXCLUSIVE");
                assert(s@ =~= seq!['E', 'X', 'C', 'L', 'U', 'S', 'I', 'V', 'E']);
            }
            Some(s)
        },
        TokenType::TK_EXISTS => {
            let s = "EXISTS";
            proof {
                reveal_strlit("EXISTS");
                assert(s@ =~= seq!['E', 'X', 'I', 'S', 'T', 'S']);
            }
            Some(s)
        },
        TokenType::TK_EXPLAIN => {
            let s = "EXPLAIN";
            proof {
                reveal_strlit("EXPLAIN");
                assert(s@ =~= seq!['E', 'X', 'P', 'L', 'A', 'I', 'N']);
            }
            Some(s)
        },
        TokenType::TK_FAIL => {
            let s = "FAIL";
            proof {
                reveal_strlit("FAIL");
                assert(s@ =~= seq!['F', 'A', 'I', 'L']);
            }
            Some(s)
        },
        TokenType::TK_FILTER => {
            let s = "FILTER";
            proof {
                reveal_strlit("FILTER");
                assert(s@ =~= seq!['F', 'I', 'L', 'T', 'E', 'R']);
            }
            Some(s)
        },
        TokenType::TK_FOLLOWING => {
            let s = "FOLLOWING";
            proof {
                reveal_strlit("FOLLOWING");
                assert(s@ =~= seq!['F', 'O', 'L', 'L', 'O', 'W', 'I', 'N', 'G']);
            }
            Some(s)
        },
        TokenType::TK_FOR => {
            let s = "FOR";
            proof {
                reveal_strlit("FOR");
                assert(s@ =~= seq!['F', 'O', 'R']);
            }
            Some(s)
        },
        TokenType::TK_FOREIGN => {
            let s = "FOREIGN";
            proof {
                reveal_strlit("FOREIGN");
                assert(s@ =~= seq!['F', 'O', 'R', 'E', 'I', 'G', 'N']);
            }
            Some(s)
        },
        TokenType::TK_FROM => {
            let s = "FROM";
            proof {
                reveal_strlit("FROM");
                assert(s@ =~= seq!['F', 'R', 'O', 'M']);
            }
            Some(s)
        },
        TokenType::TK_GROUP => {
            let s = "GROUP";
            proof {
                reveal_strlit("GROUP");
                assert(s@ =~= seq!['G', 'R', 'O', 'U', 'P']);
            }
            Some(s)
        },
        TokenType::TK_HAVING => {
            let s = "HAVING";
            proof {
                reveal_strlit("HAVING");
                assert(s@ =~= seq!['H', 'A', 'V', 'I', 'N', 'G']);
            }
            Some(s)
        },
        TokenType::TK_IF => {
            let s = "IF";
            proof {
                reveal_strlit("IF");
                assert(s@ =~= seq!['I', 'F']);
            }
            Some(s)
        },
        TokenType::TK_IGNORE => {
            let s = "IGNORE";
            proof {
                reveal_strlit("IGNORE");
                assert(s@ =~= seq!['I', 'G', 'N', 'O', 'R', 'E']);
            }
            Some(s)
        },
        TokenType::TK_IMMEDIATE => {
            let s = "IMMEDIATE";
            proof {
                reveal_strlit("IMMEDIATE");
                assert(s@ =~= seq!['I', 'M', 'M', 'E', 'D', 'I', 'A', 'T', 'E']);
            }
            Some(s)
        },
        TokenType::TK_IN => {
            let s = "IN";
            proof {
                reveal_strlit("IN");
                assert(s@ =~= seq!['I', 'N']);
            }
            Some(s)
        },
        TokenType::TK_INDEX => {
            let s = "INDEX";
            proof {
                reveal_strlit("INDEX");
                assert(s@ =~= seq!['I', 'N', 'D', 'E', 'X']);
            }
            Some(s)
        },
        TokenType::TK_INDEXED => {
            let s = "INDEXED";
            proof {
                reveal_strlit("INDEXED");
                assert(s@ =~= seq!['I', 'N', 'D', 'E', 'X', 'E', 'D']);
            }
            Some(s)
        },
        TokenType::TK_INITIALLY => {
            let s = "INITIALLY";
            proof {
                reveal_strlit("INITIALLY");
                assert(s@ =~= seq!['I', 'N', 'I', 'T', 'I', 'A', 'L', 'L', 'Y']);
            }
            Some(s)
        },
        TokenType::TK_INSERT => {
            let s = "INSERT";
            proof {
                reveal_strlit("INSERT");
                assert(s@ =~= seq!['I', 'N', 'S', 'E', 'R', 'T']);
            }
            Some(s)
        },
        TokenType::TK_INSTEAD => {
            let s = "INSTEAD";
            proof {
                reveal_strlit("INSTEAD");
                assert(s@ =~= seq!['I', 'N', 'S', 'T', 'E', 'A', 'D']);
            }
            Some(s)
        },
        TokenType::TK_INTERSECT => {
            let s = "INTERSECT";
            proof {
                reveal_strlit("INTERSECT");
                assert(s@ =~= seq!['I', 'N', 'T', 'E', 'R', 'S', 'E', 'C', 'T']);
            }
            Some(s)
        },
        TokenType::TK_INTO => {
            let s = "INTO";
            proof {
                reveal_strlit("INTO");
                assert(s@ =~= seq!['I', 'N', 'T', 'O']);
            }
            Some(s)
        },
        TokenType::TK_IS => {
            let s = "IS";
            proof {
                reveal_strlit("IS");
                assert(s@ =~= seq!['I', 'S']);
            }
            Some(s)
        },
        TokenType::TK_ISNULL => {
            let s = "ISNULL";
            proof {
                reveal_strlit("ISNULL");
                assert(s@ =~= seq!['I', 'S', 'N', 'U', 'L', 'L']);
            }
            Some(s)
        },
        TokenType::TK_JOIN => {
            let s = "JOIN";
            proof {
                reveal_strlit("JOIN");
                assert(s@ =~= seq!['J', 'O', 'I', 'N']);
            }
            Some(s)
        },
        TokenType::TK_KEY => {
            let s = "KEY";
            proof {
                reveal_strlit("KEY");
                assert(s@ =~= seq!['K', 'E', 'Y']);
            }
            Some(s)
        },
        TokenType::TK_LIMIT => {
            let s = "LIMIT";
            proof {
                reveal_strlit("LIMIT");
                assert(s@ =~= seq!['L', 'I', 'M', 'I', 'T']);
            }
            Some(s)
        },
        TokenType::TK_NO => {
            let s = "NO";
            proof {
                reveal_strlit("NO");
                assert(s@ =~= seq!['N', 'O']);
            }
            Some(s)
        },
        TokenType::TK_NOT => {
            let s = "NOT";
            proof {
                reveal_strlit("NOT");
                assert(s@ =~= seq!['N', 'O', 'T']);
            }
            Some(s)
        },
        TokenType::TK_NOTHING => {
            let s = "NOTHING";
            proof {
                reveal_strlit("NOTHING");
                assert(s@ =~= seq!['N', 'O', 'T', 'H', 'I', 'N', 'G']);
            }
            Some(s)
        },
        TokenType::TK_NOTNULL => {
            let s = "NOTNULL";
            proof {
                reveal_strlit("NOTNULL");
                assert(s@ =~= seq!['N', 'O', 'T', 'N', 'U', 'L', 'L']);
            }
            Some(s)
        },
        TokenType::TK_NULL => {
            let s = "NULL";
            proof {
                reveal_strlit("NULL");
                assert(s@ =~= seq!['N', 'U', 'L', 'L']);
            }
            Some(s)
        },
        TokenType::TK_OF => {
            let s = "OF";
            proof {
                reveal_strlit("OF");
                assert(s@ =~= seq!['O', 'F']);
            }
            Some(s)
        },
        TokenType::TK_OFFSET => {
            let s = "OFFSET";
            proof {
                reveal_strlit("OFFSET");
                assert(s@ =~= seq!['O', 'F', 'F', 'S', 'E', 'T']);
            }
            Some(s)
        },
        TokenType::TK_ON => {
            let s = "ON";
            proof {
                reveal_strlit("ON");
                assert(s@ =~= seq!['O', 'N']);
            }
            Some(s)
        },
        TokenType::TK_OR => {
            let s = "OR";
            proof {
                reveal_strlit("OR");
                assert(s@ =~= seq!['O', 'R']);
            }
            Some(s)
        },
        TokenType::TK_ORDER => {
            let s = "ORDER";
            proof {
                reveal_strlit("ORDER");
                assert(s@ =~= seq!['O', 'R', 'D', 'E', 'R']);
            }
            Some(s)
        },
        TokenType::TK_OVER => {
            let s = "OVER";
            proof {
                reveal_strlit("OVER");
                assert(s@ =~= seq!['O', 'V', 'E', 'R']);
            }
            Some(s)
        },
        TokenType::TK_PARTITION => {
            let s = "PARTITION";
            proof {
                reveal_strlit("PARTITION");
                assert(s@ =~= seq!['P', 'A', 'R', 'T', 'I', 'T', 'I', 'O', 'N']);
            }
            Some(s)
        },
        TokenType::TK_PLAN => {
            let s = "PLAN";
            proof {
                reveal_strlit("PLAN");
                assert(s@ =~= seq!['P', 'L', 'A', 'N']);
            }
            Some(s)
        },
        TokenType::TK_PRAGMA => {
            let s = "PRAGMA";
            proof {
                reveal_strlit("PRAGMA");
                assert(s@ =~= seq!['P', 'R', 'A', 'G', 'M', 'A']);
            }
            Some(s)
        },
        TokenType::TK_PRECEDING => {
            let s = "PRECEDING";
            proof {
                reveal_strlit("PRECEDING");
                assert(s@ =~= seq!['P', 'R', 'E', 'C', 'E', 'D', 'I', 'N', 'G']);
            }
            Some(s)
        },
        TokenType::TK_PRIMARY => {
            let s = "PRIMARY";
            proof {
                reveal_strlit("PRIMARY");
                assert(s@ =~= seq!['P', 'R', 'I', 'M', 'A', 'R', 'Y']);
            }
            Some(s)
        },
        TokenType::TK_QUERY => {
            let s = "QUERY";
            proof {
                reveal_strlit("QUERY");
                assert(s@ =~= seq!['Q', 'U', 'E', 'R', 'Y']);
            }
            Some(s)
        },
        TokenType::TK_RAISE => {
            let s = "RAISE";
            proof {
                reveal_strlit("RAISE");
                assert(s@ =~= seq!['R', 'A', 'I', 'S', 'E']);
            }
            Some(s)
        },
        TokenType::TK_RANGE => {
            let s = "RANGE";
            proof {
                reveal_strlit("RANGE");
                assert(s@ =~= seq!['R', 'A', 'N', 'G', 'E']);
            }
            Some(s)
        },
        TokenType::TK_RECURSIVE => {
            let s = "RECURSIVE";
            proof {
                reveal_strlit("RECURSIVE");
                assert(s@ =~= seq!['R', 'E', 'C', 'U', 'R', 'S', 'I', 'V', 'E']);
            }
            Some(s)
        },
        TokenType::TK_REFERENCES => {
            let s = "REFERENCES";
            proof {
                reveal_strlit("REFERENCES");
                assert(s@ =~= seq!['R', 'E', 'F', 'E', 'R', 'E', 'N', 'C', 'E', 'S']);
            }
            Some(s)
        },
        TokenType::TK_REINDEX => {
            let s = "REINDEX";
            proof {
                reveal_strlit("REINDEX");
                assert(s@ =~= seq!['R', 'E', 'I', 'N', 'D', 'E', 'X']);
            }
            Some(s)
        },
        TokenType::TK_RELEASE => {
            let s = "RELEASE";
            proof {
                reveal_strlit("RELEASE");
                assert(s@ =~= seq!['R', 'E', 'L', 'E', 'A', 'S', 'E']);
            }
            Some(s)
        },
        TokenType::TK_RENAME => {
            let s = "RENAME";
            proof {
                reveal_strlit("RENAME");
                assert(s@ =~= seq!['R', 'E', 'N', 'A', 'M', 'E']);
            }
            Some(s)
        },
        TokenType::TK_REPLACE => {
            let s = "REPLACE";
            proof {
                reveal_strlit("REPLACE");
                assert(s@ =~= seq!['R', 'E', 'P', 'L', 'A', 'C', 'E']);
            }
            Some(s)
        },
        TokenType::TK_RESTRICT => {
            let s = "RESTRICT";
            proof {
                reveal_strlit("RESTRICT");
                assert(s@ =~= seq!['R', 'E', 'S', 'T', 'R', 'I', 'C', 'T']);
            }
            Some(s)
        },
        TokenType::TK_ROLLBACK => {
            let s = "ROLLBACK";
            proof {
                reveal_strlit("ROLLBACK");
                assert(s@ =~= seq!['R', 'O', 'L', 'L', 'B', 'A', 'C', 'K']);
            }
            Some(s)
        },
        TokenType::TK_ROW => {
            let s = "ROW";
            proof {
                reveal_strlit("ROW");
                assert(s@ =~= seq!['R', 'O', 'W']);
            }
            Some(s)
        },
        TokenType::TK_ROWS => {
            let s = "ROWS";
            proof {
                reveal_strlit("ROWS");
                assert(s@ =~= seq!['R', 'O', 'W', 'S']);
            }
            Some(s)
        },
        TokenType::TK_SAVEPOINT => {
            let s = "SAVEPOINT";
            proof {
                reveal_strlit("SAVEPOINT");
                assert(s@ =~= seq!['S', 'A', 'V', 'E', 'P', 'O', 'I', 'N', 'T']);
            }
            Some(s)
        },
        TokenType::TK_SELECT => {
            let s = "SELECT";
            proof {
                reveal_strlit("SELECT");
                assert(s@ =~= seq!['S', 'E', 'L', 'E', 'C', 'T']);
            }
            Some(s)
        },
        TokenType::TK_SET => {
            let s = "SET";
            proof {
                reveal_strlit("SET");
                assert(s@ =~= seq!['S', 'E', 'T']);
            }
            Some(s)
        },
        TokenType::TK_TABLE => {
            let s = "TABLE";
            proof {
                reveal_strlit("TABLE");
                assert(s@ =~= seq!['T', 'A', 'B', 'L', 'E']);
            }
            Some(s)
        },
        TokenType::TK_TEMP => {
            let s = "TEMP";
            proof {
                reveal_strlit("TEMP");
                assert(s@ =~= seq!['T', 'E', 'M', 'P']);
            }
            Some(s)
        },
        TokenType::TK_THEN => {
            let s = "THEN";
            proof {
                reveal_strlit("THEN");
                assert(s@ =~= seq!['T', 'H', 'E', 'N']);
            }
            Some(s)
        },
        TokenType::TK_TO => {
            let s = "TO";
            proof {
                reveal_strlit("TO");
                assert(s@ =~= seq!['T', 'O']);
            }
            Some(s)
        },
        TokenType::TK_TRANSACTION => {
            let s = "TRANSACTION";
            proof {
                reveal_strlit("TRANSACTION");
                assert(s@ =~= seq!['T', 'R', 'A', 'N', 'S', 'A', 'C', 'T', 'I', 'O', 'N']);
            }
            Some(s)
        },
        TokenType::TK_TRIGGER => {
            let s = "TRIGGER";
            proof {
                reveal_strlit("TRIGGER");
                assert(s@ =~= seq!['T', 'R', 'I', 'G', 'G', 'E', 'R']);
            }
            Some(s)
        },
        TokenType::TK_UNBOUNDED => {
            let s = "UNBOUNDED";
            proof {
                reveal_strlit("UNBOUNDED");
                assert(s@ =~= seq!['U', 'N', 'B', 'O', 'U', 'N', 'D', 'E', 'D']);
            }
            Some(s)
        },
        TokenType::TK_UNION => {
            let s = "UNION";
            proof {
                reveal_strlit("UNION");
                assert(s@ =~= seq!['U', 'N', 'I', 'O', 'N']);
            }
            Some(s)
        },
        TokenType::TK_UNIQUE => {
            let s = "UNIQUE";
            proof {
                reveal_strlit("UNIQUE");
                assert(s@ =~= seq!['U', 'N', 'I', 'Q', 'U', 'E']);
            }
            Some(s)
        },
        TokenType::TK_UPDATE => {
            let s = "UPDATE";
            proof {
                reveal_strlit("UPDATE");
                assert(s@ =~= seq!['U', 'P', 'D', 'A', 'T', 'E']);
            }
            Some(s)
        },
        TokenType::TK_USING => {
            let s = "USING";
            proof {
                reveal_strlit("USING");
                assert(s@ =~= seq!['U', 'S', 'I', 'N', 'G']);
            }
            Some(s)
        },
        TokenType::TK_VACUUM => {
            let s = "VACUUM";
            proof {
                reveal_strlit("VACUUM");
                assert(s@ =~= seq!['V', 'A', 'C', 'U', 'U', 'M']);
            }
            Some(s)
        },
        TokenType::TK_VALUES => {
            let s = "VALUES";
            proof {
                reveal_strlit("VALUES");
                assert(s@ =~= seq!['V', 'A', 'L', 'U', 'E', 'S']);
            }
            Some(s)
        },
        TokenType::TK_VIEW => {
            let s = "VIEW";
            proof {
                reveal_strlit("VIEW");
                assert(s@ =~= seq!['V', 'I', 'E', 'W']);
            }
            Some(s)
        },
        TokenType::TK_VIRTUAL => {
            let s = "VIRTUAL";
            proof {
                reveal_strlit("VIRTUAL");
                assert(s@ =~= seq!['V', 'I', 'R', 'T', 'U', 'A', 'L']);
            }
            Some(s)
        },
        TokenType::TK_WHEN => {
            let s = "WHEN";
            proof {
                reveal_strlit("WHEN");
                assert(s@ =~= seq!['W', 'H', 'E', 'N']);
            }
            Some(s)
        },
        TokenType::TK_WHERE => {
            let s = "WHERE";
            proof {
                reveal_strlit("WHERE");
                assert(s@ =~= seq!['W', 'H', 'E', 'R', 'E']);
            }
            Some(s)
        },
        TokenType::TK_WINDOW => {
            let s = "WINDOW";
            proof {
                reveal_strlit("WINDOW");
                assert(s@ =~= seq!['W', 'I', 'N', 'D', 'O', 'W']);
            }
            Some(s)
        },
        TokenType::TK_WITH => {
            let s = "WITH";
            proof {
                reveal_strlit("WITH");
                assert(s@ =~= seq!['W', 'I', 'T', 'H']);
            }
            Some(s)
        },
        TokenType::TK_WITHOUT => {
            let s = "WITHOUT";
            proof {
                reveal_strlit("WITHOUT");
                assert(s@ =~= seq!['W', 'I', 'T', 'H', 'O', 'U', 'T']);
            }
            Some(s)
        },
        TokenType::TK_ANY => None,
        TokenType::TK_BLOB => None,
        TokenType::TK_CTIME_KW => None,
        TokenType::TK_FLOAT => None,
        TokenType::TK_ID => None,
        TokenType::TK_INTEGER => None,
        TokenType::TK_JOIN_KW => None,
        TokenType::TK_LIKE_KW => None,
        TokenType::TK_STRING => None,
        TokenType::TK_VARIABLE => None,
    }
}

/// The terminal kind whose numeric code is `ty`, if any.
pub open spec fn kind_of_code(ty: u16) -> Option<TokenType> {
    if ty == token_code(TokenType::TK_ABORT) {
        Some(TokenType::TK_ABORT)
    } else if ty == token_code(TokenType::TK_ACTION) {
        Some(TokenType::TK_ACTION)
    } else if ty == token_code(TokenType::TK_ADD) {
        Some(TokenType::TK_ADD)
    } else if ty == token_code(TokenType::TK_AFTER) {
        Some(TokenType::TK_AFTER)
    } else if ty == token_code(TokenType::TK_ALL) {
        Some(TokenType::TK_ALL)
    } else if ty == token_code(TokenType::TK_ALTER) {
        Some(TokenType::TK_ALTER)
    } else if ty == token_code(TokenType::TK_ANALYZE) {
        Some(TokenType::TK_ANALYZE)
    } else if ty == token_code(TokenType::TK_AND) {
        Some(TokenType::TK_AND)
    } else if ty == token_code(TokenType::TK_ANY) {
        Some(TokenType::TK_ANY)
    } else if ty == token_code(TokenType::TK_AS) {
        Some(TokenType::TK_AS)
    } else if ty == token_code(TokenType::TK_ASC) {
        Some(TokenType::TK_ASC)
    } else if ty == token_code(TokenType::TK_ATTACH) {
        Some(TokenType::TK_ATTACH)
    } else if ty == token_code(TokenType::TK_AUTOINCR) {
        Some(TokenType::TK_AUTOINCR)
    } else if ty == token_code(TokenType::TK_BEFORE) {
        Some(TokenType::TK_BEFORE)
    } else if ty == token_code(TokenType::TK_BEGIN) {
        Some(TokenType::TK_BEGIN)
    } else if ty == token_code(TokenType::TK_BETWEEN) {
        Some(TokenType::TK_BETWEEN)
    } else if ty == token_code(TokenType::TK_BLOB) {
        Some(TokenType::TK_BLOB)
    } else if ty == token_code(TokenType::TK_BY) {
        Some(TokenType::TK_BY)
    } else if ty == token_code(TokenType::TK_CASCADE) {
        Some(TokenType::TK_CASCADE)
    } else if ty == token_code(TokenType::TK_CASE) {
        Some(TokenType::TK_CASE)
    } else if ty == token_code(TokenType::TK_CAST) {
        Some(TokenType::TK_CAST)
    } else if ty == token_code(TokenType::TK_CHECK) {
        Some(TokenType::TK_CHECK)
    } else if ty == token_code(TokenType::TK_COLLATE) {
        Some(TokenType::TK_COLLATE)
    } else if ty == token_code(TokenType::TK_COLUMNKW) {
        Some(TokenType::TK_COLUMNKW)
    } else if ty == token_code(TokenType::TK_COMMIT) {
        Some(TokenType::TK_COMMIT)
    } else if ty == token_code(TokenType::TK_CONFLICT) {
        Some(TokenType::TK_CONFLICT)
    } else if ty == token_code(TokenType::TK_CONSTRAINT) {
        Some(TokenType::TK_CONSTRAINT)
    } else if ty == token_code(TokenType::TK_CREATE) {
        Some(TokenType::TK_CREATE)
    } else if ty == token_code(TokenType::TK_CTIME_KW) {
        Some(TokenType::TK_CTIME_KW)
    } else if ty == token_code(TokenType::TK_CURRENT) {
        Some(TokenType::TK_CURRENT)
    } else if ty == token_code(TokenType::TK_DATABASE) {
        Some(TokenType::TK_DATABASE)
    } else if ty == token_code(TokenType::TK_DEFAULT) {
        Some(TokenType::TK_DEFAULT)
    } else if ty == token_code(TokenType::TK_DEFERRABLE) {
        Some(TokenType::TK_DEFERRABLE)
    } else if ty == token_code(TokenType::TK_DEFERRED) {
        Some(TokenType::TK_DEFERRED)
    } else if ty == token_code(TokenType::TK_DELETE) {
        Some(TokenType::TK_DELETE)
    } else if ty == token_code(TokenType::TK_DESC) {
        Some(TokenType::TK_DESC)
    } else if ty == token_code(TokenType::TK_DETACH) {
        Some(TokenType::TK_DETACH)
    } else if ty == token_code(TokenType::TK_DISTINCT) {
        Some(TokenType::TK_DISTINCT)
    } else if ty == token_code(TokenType::TK_DO) {
        Some(TokenType::TK_DO)
    } else if ty == token_code(TokenType::TK_DROP) {
        Some(TokenType::TK_DROP)
    } else if ty == token_code(TokenType::TK_EACH) {
        Some(TokenType::TK_EACH)
    } else if ty == token_code(TokenType::TK_ELSE) {
        Some(TokenType::TK_ELSE)
    } else if ty == token_code(TokenType::TK_END) {
        Some(TokenType::TK_END)
    } else if ty == token_code(TokenType::TK_ESCAPE) {
        Some(TokenType::TK_ESCAPE)
    } else if ty == token_code(TokenType::TK_EXCEPT) {
        Some(TokenType::TK_EXCEPT)
    } else if ty == token_code(TokenType::TK_EXCLUSIVE) {
        Some(TokenType::TK_EXCLUSIVE)
    } else if ty == token_code(TokenType::TK_EXISTS) {
        Some(TokenType::TK_EXISTS)
    } else if ty == token_code(TokenType::TK_EXPLAIN) {
        Some(TokenType::TK_EXPLAIN)
    } else if ty == token_code(TokenType::TK_FAIL) {
        Some(TokenType::TK_FAIL)
    } else if ty == token_code(TokenType::TK_FILTER) {
        Some(TokenType::TK_FILTER)
    } else if ty == token_code(TokenType::TK_FLOAT) {
        Some(TokenType::TK_FLOAT)
    } else if ty == token_code(TokenType::TK_FOLLOWING) {
        Some(TokenType::TK_FOLLOWING)
    } else if ty == token_code(TokenType::TK_FOR) {
        Some(TokenType::TK_FOR)
    } else if ty == token_code(TokenType::TK_FOREIGN) {
        Some(TokenType::TK_FOREIGN)
    } else if ty == token_code(TokenType::TK_FROM) {
        Some(TokenType::TK_FROM)
    } else if ty == token_code(TokenType::TK_GROUP) {
        Some(TokenType::TK_GROUP)
    } else if ty == token_code(TokenType::TK_HAVING) {
        Some(TokenType::TK_HAVING)
    } else if ty == token_code(TokenType::TK_ID) {
        Some(TokenType::TK_ID)
    } else if ty == token_code(TokenType::TK_IF) {
        Some(TokenType::TK_IF)
    } else if ty == token_code(TokenType::TK_IGNORE) {
        Some(TokenType::TK_IGNORE)
    } else if ty == token_code(TokenType::TK_IMMEDIATE) {
        Some(TokenType::TK_IMMEDIATE)
    } else if ty == token_code(TokenType::TK_IN) {
        Some(TokenType::TK_IN)
    } else if ty == token_code(TokenType::TK_INDEX) {
        Some(TokenType::TK_INDEX)
    } else if ty == token_code(TokenType::TK_INDEXED) {
        Some(TokenType::TK_INDEXED)
    } else if ty == token_code(TokenType::TK_INITIALLY) {
        Some(TokenType::TK_INITIALLY)
    } else if ty == token_code(TokenType::TK_INSERT) {
        Some(TokenType::TK_INSERT)
    } else if ty == token_code(TokenType::TK_INSTEAD) {
        Some(TokenType::TK_INSTEAD)
    } else if ty == token_code(TokenType::TK_INTEGER) {
        Some(TokenType::TK_INTEGER)
    } else if ty == token_code(TokenType::TK_INTERSECT) {
        Some(TokenType::TK_INTERSECT)
    } else if ty == token_code(TokenType::TK_INTO) {
        Some(TokenType::TK_INTO)
    } else if ty == token_code(TokenType::TK_IS) {
        Some(TokenType::TK_IS)
    } else if ty == token_code(TokenType::TK_ISNULL) {
        Some(TokenType::TK_ISNULL)
    } else if ty == token_code(TokenType::TK_JOIN) {
        Some(TokenType::TK_JOIN)
    } else if ty == token_code(TokenType::TK_JOIN_KW) {
        Some(TokenType::TK_JOIN_KW)
    } else if ty == token_code(TokenType::TK_KEY) {
        Some(TokenType::TK_KEY)
    } else if ty == token_code(TokenType::TK_LIKE_KW) {
        Some(TokenType::TK_LIKE_KW)
    } else if ty == token_code(TokenType::TK_LIMIT) {
        Some(TokenType::TK_LIMIT)
    } else if ty == token_code(TokenType::TK_NO) {
        Some(TokenType::TK_NO)
    } else if ty == token_code(TokenType::TK_NOT) {
        Some(TokenType::TK_NOT)
    } else if ty == token_code(TokenType::TK_NOTHING) {
        Some(TokenType::TK_NOTHING)
    } else if ty == token_code(TokenType::TK_NOTNULL) {
        Some(TokenType::TK_NOTNULL)
    } else if ty == token_code(TokenType::TK_NULL) {
        Some(TokenType::TK_NULL)
    } else if ty == token_code(TokenType::TK_OF) {
        Some(TokenType::TK_OF)
    } else if ty == token_code(TokenType::TK_OFFSET) {
        Some(TokenType::TK_OFFSET)
    } else if ty == token_code(TokenType::TK_ON) {
        Some(TokenType::TK_ON)
    } else if ty == token_code(TokenType::TK_OR) {
        Some(TokenType::TK_OR)
    } else if ty == token_code(TokenType::TK_ORDER) {
        Some(TokenType::TK_ORDER)
    } else if ty == token_code(TokenType::TK_OVER) {
        Some(TokenType::TK_OVER)
    } else if ty == token_code(TokenType::TK_PARTITION) {
        Some(TokenType::TK_PARTITION)
    } else if ty == token_code(TokenType::TK_PLAN) {
        Some(TokenType::TK_PLAN)
    } else if ty == token_code(TokenType::TK_PRAGMA) {
        Some(TokenType::TK_PRAGMA)
    } else if ty == token_code(TokenType::TK_PRECEDING) {
        Some(TokenType::TK_PRECEDING)
    } else if ty == token_code(TokenType::TK_PRIMARY) {
        Some(TokenType::TK_PRIMARY)
    } else if ty == token_code(TokenType::TK_QUERY) {
        Some(TokenType::TK_QUERY)
    } else if ty == token_code(TokenType::TK_RAISE) {
        Some(TokenType::TK_RAISE)
    } else if ty == token_code(TokenType::TK_RANGE) {
        Some(TokenType::TK_RANGE)
    } else if ty == token_code(TokenType::TK_RECURSIVE) {
        Some(TokenType::TK_RECURSIVE)
    } else if ty == token_code(TokenType::TK_REFERENCES) {
        Some(TokenType::TK_REFERENCES)
    } else if ty == token_code(TokenType::TK_REINDEX) {
        Some(TokenType::TK_REINDEX)
    } else if ty == token_code(TokenType::TK_RELEASE) {
        Some(TokenType::TK_RELEASE)
    } else if ty == token_code(TokenType::TK_RENAME) {
        Some(TokenType::TK_RENAME)
    } else if ty == token_code(TokenType::TK_REPLACE) {
        Some(TokenType::TK_REPLACE)
    } else if ty == token_code(TokenType::TK_RESTRICT) {
        Some(TokenType::TK_RESTRICT)
    } else if ty == token_code(TokenType::TK_ROLLBACK) {
        Some(TokenType::TK_ROLLBACK)
    } else if ty == token_code(TokenType::TK_ROW) {
        Some(TokenType::TK_ROW)
    } else if ty == token_code(TokenType::TK_ROWS) {
        Some(TokenType::TK_ROWS)
    } else if ty == token_code(TokenType::TK_SAVEPOINT) {
        Some(TokenType::TK_SAVEPOINT)
    } else if ty == token_code(TokenType::TK_SELECT) {
        Some(TokenType::TK_SELECT)
    } else if ty == token_code(TokenType::TK_SET) {
        Some(TokenType::TK_SET)
    } else if ty == token_code(TokenType::TK_STRING) {
        Some(TokenType::TK_STRING)
    } else if ty == token_code(TokenType::TK_TABLE) {
        Some(TokenType::TK_TABLE)
    } else if ty == token_code(TokenType::TK_TEMP) {
        Some(TokenType::TK_TEMP)
    } else if ty == token_code(TokenType::TK_THEN) {
        Some(TokenType::TK_THEN)
    } else if ty == token_code(TokenType::TK_TO) {
        Some(TokenType::TK_TO)
    } else if ty == token_code(TokenType::TK_TRANSACTION) {
        Some(TokenType::TK_TRANSACTION)
    } else if ty == token_code(TokenType::TK_TRIGGER) {
        Some(TokenType::TK_TRIGGER)
    } else if ty == token_code(TokenType::TK_UNBOUNDED) {
        Some(TokenType::TK_UNBOUNDED)
    } else if ty == token_code(TokenType::TK_UNION) {
        Some(TokenType::TK_UNION)
    } else if ty == token_code(TokenType::TK_UNIQUE) {
        Some(TokenType::TK_UNIQUE)
    } else if ty == token_code(TokenType::TK_UPDATE) {
        Some(TokenType::TK_UPDATE)
    } else if ty == token_code(TokenType::TK_USING) {
        Some(TokenType::TK_USING)
    } else if ty == token_code(TokenType::TK_VACUUM) {
        Some(TokenType::TK_VACUUM)
    } else if ty == token_code(TokenType::TK_VALUES) {
        Some(TokenType::TK_VALUES)
    } else if ty == token_code(TokenType::TK_VARIABLE) {
        Some(TokenType::TK_VARIABLE)
    } else if ty == token_code(TokenType::TK_VIEW) {
        Some(TokenType::TK_VIEW)
    } else if ty == token_code(TokenType::TK_VIRTUAL) {
        Some(TokenType::TK_VIRTUAL)
    } else if ty == token_code(TokenType::TK_WHEN) {
        Some(TokenType::TK_WHEN)
    } else if ty == token_code(TokenType::TK_WHERE) {
        Some(TokenType::TK_WHERE)
    } else if ty == token_code(TokenType::TK_WINDOW) {
        Some(TokenType::TK_WINDOW)
    } else if ty == token_code(TokenType::TK_WITH) {
        Some(TokenType::TK_WITH)
    } else if ty == token_code(TokenType::TK_WITHOUT) {
        Some(TokenType::TK_WITHOUT)
    } else {
        None
    }
}

/// Look a numeric code back up in the kind enumeration.
#[verifier::rlimit(100)]
pub fn kind_from_code(ty: u16) -> (r: Option<TokenType>)
    ensures
        r == kind_of_code(ty),
{
    if ty == 1u16 {
        Some(TokenType::TK_ABORT)
    } else if ty == 2u16 {
        Some(TokenType::TK_ACTION)
    } else if ty == 3u16 {
        Some(TokenType::TK_ADD)
    } else if ty == 4u16 {
        Some(TokenType::TK_AFTER)
    } else if ty == 5u16 {
        Some(TokenType::TK_ALL)
    } else if ty == 6u16 {
        Some(TokenType::TK_ALTER)
    } else if ty == 7u16 {
        Some(TokenType::TK_ANALYZE)
    } else if ty == 8u16 {
        Some(TokenType::TK_AND)
    } else if ty == 9u16 {
        Some(TokenType::TK_ANY)
    } else if ty == 10u16 {
        Some(TokenType::TK_AS)
    } else if ty == 11u16 {
        Some(TokenType::TK_ASC)
    } else if ty == 12u16 {
        Some(TokenType::TK_ATTACH)
    } else if ty == 13u16 {
        Some(TokenType::TK_AUTOINCR)
    } else if ty == 14u16 {
        Some(TokenType::TK_BEFORE)
    } else if ty == 15u16 {
        Some(TokenType::TK_BEGIN)
    } else if ty == 16u16 {
        Some(TokenType::TK_BETWEEN)
    } else if ty == 17u16 {
        Some(TokenType::TK_BLOB)
    } else if ty == 18u16 {
        Some(TokenType::TK_BY)
    } else if ty == 19u16 {
        Some(TokenType::TK_CASCADE)
    } else if ty == 20u16 {
        Some(TokenType::TK_CASE)
    } else if ty == 21u16 {
        Some(TokenType::TK_CAST)
    } else if ty == 22u16 {
        Some(TokenType::TK_CHECK)
    } else if ty == 23u16 {
        Some(TokenType::TK_COLLATE)
    } else if ty == 24u16 {
        Some(TokenType::TK_COLUMNKW)
    } else if ty == 25u16 {
        Some(TokenType::TK_COMMIT)
    } else if ty == 26u16 {
        Some(TokenType::TK_CONFLICT)
    } else if ty == 27u16 {
        Some(TokenType::TK_CONSTRAINT)
    } else if ty == 28u16 {
        Some(TokenType::TK_CREATE)
    } else if ty == 29u16 {
        Some(TokenType::TK_CTIME_KW)
    } else if ty == 30u16 {
        Some(TokenType::TK_CURRENT)
    } else if ty == 31u16 {
        Some(TokenType::TK_DATABASE)
    } else if ty == 32u16 {
        Some(TokenType::TK_DEFAULT)
    } else if ty == 33u16 {
        Some(TokenType::TK_DEFERRABLE)
    } else if ty == 34u16 {
        Some(TokenType::TK_DEFERRED)
    } else if ty == 35u16 {
        Some(TokenType::TK_DELETE)
    } else if ty == 36u16 {
        Some(TokenType::TK_DESC)
    } else if ty == 37u16 {
        Some(TokenType::TK_DETACH)
    } else if ty == 38u16 {
        Some(TokenType::TK_DISTINCT)
    } else if ty == 39u16 {
        Some(TokenType::TK_DO)
    } else if ty == 40u16 {
        Some(TokenType::TK_DROP)
    } else if ty == 41u16 {
        Some(TokenType::TK_EACH)
    } else if ty == 42u16 {
        Some(TokenType::TK_ELSE)
    } else if ty == 43u16 {
        Some(TokenType::TK_END)
    } else if ty == 44u16 {
        Some(TokenType::TK_ESCAPE)
    } else if ty == 45u16 {
        Some(TokenType::TK_EXCEPT)
    } else if ty == 46u16 {
        Some(TokenType::TK_EXCLUSIVE)
    } else if ty == 47u16 {
        Some(TokenType::TK_EXISTS)
    } else if ty == 48u16 {
        Some(TokenType::TK_EXPLAIN)
    } else if ty == 49u16 {
        Some(TokenType::TK_FAIL)
    } else if ty == 50u16 {
        Some(TokenType::TK_FILTER)
    } else if ty == 51u16 {
        Some(TokenType::TK_FLOAT)
    } else if ty == 52u16 {
        Some(TokenType::TK_FOLLOWING)
    } else if ty == 53u16 {
        Some(TokenType::TK_FOR)
    } else if ty == 54u16 {
        Some(TokenType::TK_FOREIGN)
    } else if ty == 55u16 {
        Some(TokenType::TK_FROM)
    } else if ty == 56u16 {
        Some(TokenType::TK_GROUP)
    } else if ty == 57u16 {
        Some(TokenType::TK_HAVING)
    } else if ty == 58u16 {
        Some(TokenType::TK_ID)
    } else if ty == 59u16 {
        Some(TokenType::TK_IF)
    } else if ty == 60u16 {
        Some(TokenType::TK_IGNORE)
    } else if ty == 61u16 {
        Some(TokenType::TK_IMMEDIATE)
    } else if ty == 62u16 {
        Some(TokenType::TK_IN)
    } else if ty == 63u16 {
        Some(TokenType::TK_INDEX)
    } else if ty == 64u16 {
        Some(TokenType::TK_INDEXED)
    } else if ty == 65u16 {
        Some(TokenType::TK_INITIALLY)
    } else if ty == 66u16 {
        Some(TokenType::TK_INSERT)
    } else if ty == 67u16 {
        Some(TokenType::TK_INSTEAD)
    } else if ty == 68u16 {
        Some(TokenType::TK_INTEGER)
    } else if ty == 69u16 {
        Some(TokenType::TK_INTERSECT)
    } else if ty == 70u16 {
        Some(TokenType::TK_INTO)
    } else if ty == 71u16 {
        Some(TokenType::TK_IS)
    } else if ty == 72u16 {
        Some(TokenType::TK_ISNULL)
    } else if ty == 73u16 {
        Some(TokenType::TK_JOIN)
    } else if ty == 74u16 {
        Some(TokenType::TK_JOIN_KW)
    } else if ty == 75u16 {
        Some(TokenType::TK_KEY)
    } else if ty == 76u16 {
        Some(TokenType::TK_LIKE_KW)
    } else if ty == 77u16 {
        Some(TokenType::TK_LIMIT)
    } else if ty == 78u16 {
        Some(TokenType::TK_NO)
    } else if ty == 79u16 {
        Some(TokenType::TK_NOT)
    } else if ty == 80u16 {
        Some(TokenType::TK_NOTHING)
    } else if ty == 81u16 {
        Some(TokenType::TK_NOTNULL)
    } else if ty == 82u16 {
        Some(TokenType::TK_NULL)
    } else if ty == 83u16 {
        Some(TokenType::TK_OF)
    } else if ty == 84u16 {
        Some(TokenType::TK_OFFSET)
    } else if ty == 85u16 {
        Some(TokenType::TK_ON)
    } else if ty == 86u16 {
        Some(TokenType::TK_OR)
    } else if ty == 87u16 {
        Some(TokenType::TK_ORDER)
    } else if ty == 88u16 {
        Some(TokenType::TK_OVER)
    } else if ty == 89u16 {
        Some(TokenType::TK_PARTITION)
    } else if ty == 90u16 {
        Some(TokenType::TK_PLAN)
    } else if ty == 91u16 {
        Some(TokenType::TK_PRAGMA)
    } else if ty == 92u16 {
        Some(TokenType::TK_PRECEDING)
    } else if ty == 93u16 {
        Some(TokenType::TK_PRIMARY)
    } else if ty == 94u16 {
        Some(TokenType::TK_QUERY)
    } else if ty == 95u16 {
        Some(TokenType::TK_RAISE)
    } else if ty == 96u16 {
        Some(TokenType::TK_RANGE)
    } else if ty == 97u16 {
        Some(TokenType::TK_RECURSIVE)
    } else if ty == 98u16 {
        Some(TokenType::TK_REFERENCES)
    } else if ty == 99u16 {
        Some(TokenType::TK_REINDEX)
    } else if ty == 100u16 {
        Some(TokenType::TK_RELEASE)
    } else if ty == 101u16 {
        Some(TokenType::TK_RENAME)
    } else if ty == 102u16 {
        Some(TokenType::TK_REPLACE)
    } else if ty == 103u16 {
        Some(TokenType::TK_RESTRICT)
    } else if ty == 104u16 {
        Some(TokenType::TK_ROLLBACK)
    } else if ty == 105u16 {
        Some(TokenType::TK_ROW)
    } else if ty == 106u16 {
        Some(TokenType::TK_ROWS)
    } else if ty == 107u16 {
        Some(TokenType::TK_SAVEPOINT)
    } else if ty == 108u16 {
        Some(TokenType::TK_SELECT)
    } else if ty == 109u16 {
        Some(TokenType::TK_SET)
    } else if ty == 110u16 {
        Some(TokenType::TK_STRING)
    } else if ty == 111u16 {
        Some(TokenType::TK_TABLE)
    } else if ty == 112u16 {
        Some(TokenType::TK_TEMP)
    } else if ty == 113u16 {
        Some(TokenType::TK_THEN)
    } else if ty == 114u16 {
        Some(TokenType::TK_TO)
    } else if ty == 115u16 {
        Some(TokenType::TK_TRANSACTION)
    } else if ty == 116u16 {
        Some(TokenType::TK_TRIGGER)
    } else if ty == 117u16 {
        Some(TokenType::TK_UNBOUNDED)
    } else if ty == 118u16 {
        Some(TokenType::TK_UNION)
    } else if ty == 119u16 {
        Some(TokenType::TK_UNIQUE)
    } else if ty == 120u16 {
        Some(TokenType::TK_UPDATE)
    } else if ty == 121u16 {
        Some(TokenType::TK_USING)
    } else if ty == 122u16 {
        Some(TokenType::TK_VACUUM)
    } else if ty == 123u16 {
        Some(TokenType::TK_VALUES)
    } else if ty == 124u16 {
        Some(TokenType::TK_VARIABLE)
    } else if ty == 125u16 {
        Some(TokenType::TK_VIEW)
    } else if ty == 126u16 {
        Some(TokenType::TK_VIRTUAL)
    } else if ty == 127u16 {
        Some(TokenType::TK_WHEN)
    } else if ty == 128u16 {
        Some(TokenType::TK_WHERE)
    } else if ty == 129u16 {
        Some(TokenType::TK_WINDOW)
    } else if ty == 130u16 {
        Some(TokenType::TK_WITH)
    } else if ty == 131u16 {
        Some(TokenType::TK_WITHOUT)
    } else {
        None
    }
}

/// What reconstruction yields for a payload-free token of code `ty`.
pub open spec fn reconstructed_spelling(ty: u16) -> Option<Seq<char>> {
    match kind_of_code(ty) {
        Some(k) => canonical_spelling(k),
        None => None,
    }
}

/// Recover a token's text: a payload is returned verbatim; without one, the
/// canonical spelling of the kind with code `ty` is synthesized. A payload-free
/// call is only allowed for kinds the reverse table holds: anything else is a
/// wiring defect between materialization and reconstruction, not an input.
pub fn from_token(ty: u16, value: Token) -> (r: String)
    requires
        value is Some || reconstructed_spelling(ty) is Some,
    ensures
        match value {
            Some(v) => r@ == v@,
            None => Some(r@) == reconstructed_spelling(ty),
        },
{
    match value {
        Some(s) => s,
        None => {
            let k = kind_from_code(ty);
            let sp = spelling(k.unwrap());
            sp.unwrap().to_owned()
        },
    }
}

} // verus!
