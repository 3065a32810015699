//! The keyword table: exact-case classification of uppercase spellings.
use vstd::prelude::*;

use crate::token::TokenType;

verus! {

/// The longest keyword spelling in the table, a fast-reject bound for scanners.
pub const MAX_KEYWORD_LEN: usize = 17;

/// A spelling as the byte key the table is consulted with.
pub open spec fn ascii_bytes(s: Seq<char>) -> Seq<u8> {
    Seq::new(s.len(), |i: int| s[i] as u8)
}

pub open spec fn keyword_kind_len2(w: Seq<u8>) -> Option<TokenType> {
    if w == seq!['A' as u8, 'S' as u8] {  // AS
        Some(TokenType::TK_AS)
    } else if w == seq!['B' as u8, 'Y' as u8] {  // BY
        Some(TokenType::TK_BY)
    } else if w == seq!['D' as u8, 'O' as u8] {  // DO
        Some(TokenType::TK_DO)
    } else if w == seq!['I' as u8, 'F' as u8] {  // IF
        Some(TokenType::TK_IF)
    } else if w == seq!['I' as u8, 'N' as u8] {  // IN
        Some(TokenType::TK_IN)
    } else if w == seq!['I' as u8, 'S' as u8] {  // IS
        Some(TokenType::TK_IS)
    } else if w == seq!['N' as u8, 'O' as u8] {  // NO
        Some(TokenType::TK_NO)
    } else if w == seq!['O' as u8, 'F' as u8] {  // OF
        Some(TokenType::TK_OF)
    } else if w == seq!['O' as u8, 'N' as u8] {  // ON
        Some(TokenType::TK_ON)
    } else if w == seq!['O' as u8, 'R' as u8] {  // OR
        Some(TokenType::TK_OR)
    } else if w == seq!['T' as u8, 'O' as u8] {  // TO
        Some(TokenType::TK_TO)
    } else {
        None
    }
}

pub open spec fn keyword_kind_len3(w: Seq<u8>) -> Option<TokenType> {
    if w == seq!['A' as u8, 'D' as u8, 'D' as u8] {  // ADD
        Some(TokenType::TK_ADD)
    } else if w == seq!['A' as u8, 'L' as u8, 'L' as u8] {  // ALL
        Some(TokenType::TK_ALL)
    } else if w == seq!['A' as u8, 'N' as u8, 'D' as u8] {  // AND
        Some(TokenType::TK_AND)
    } else if w == seq!['A' as u8, 'S' as u8, 'C' as u8] {  // ASC
        Some(TokenType::TK_ASC)
    } else if w == seq!['E' as u8, 'N' as u8, 'D' as u8] {  // END
        Some(TokenType::TK_END)
    } else if w == seq!['F' as u8, 'O' as u8, 'R' as u8] {  // FOR
        Some(TokenType::TK_FOR)
    } else if w == seq!['K' as u8, 'E' as u8, 'Y' as u8] {  // KEY
        Some(TokenType::TK_KEY)
    } else if w == seq!['N' as u8, 'O' as u8, 'T' as u8] {  // NOT
        Some(TokenType::TK_NOT)
    } else if w == seq!['R' as u8, 'O' as u8, 'W' as u8] {  // ROW
        Some(TokenType::TK_ROW)
    } else if w == seq!['S' as u8, 'E' as u8, 'T' as u8] {  // SET
        Some(TokenType::TK_SET)
    } else {
        None
    }
}

pub open spec fn keyword_kind_len4(w: Seq<u8>) -> Option<TokenType> {
    if w == seq!['C' as u8, 'A' as u8, 'S' as u8, 'E' as u8] {  // CASE
        Some(TokenType::TK_CASE)
    } else if w == seq!['C' as u8, 'A' as u8, 'S' as u8, 'T' as u8] {  // CAST
        Some(TokenType::TK_CAST)
    } else if w == seq!['D' as u8, 'E' as u8, 'S' as u8, 'C' as u8] {  // DESC
        Some(TokenType::TK_DESC)
    } else if w == seq!['D' as u8, 'R' as u8, 'O' as u8, 'P' as u8] {  // DROP
        Some(TokenType::TK_DROP)
    } else if w == seq!['E' as u8, 'A' as u8, 'C' as u8, 'H' as u8] {  // EACH
        Some(TokenType::TK_EACH)
    } else if w == seq!['E' as u8, 'L' as u8, 'S' as u8, 'E' as u8] {  // ELSE
        Some(TokenType::TK_ELSE)
    } else if w == seq!['F' as u8, 'A' as u8, 'I' as u8, 'L' as u8] {  // FAIL
        Some(TokenType::TK_FAIL)
    } else if w == seq!['F' as u8, 'R' as u8, 'O' as u8, 'M' as u8] {  // FROM
        Some(TokenType::TK_FROM)
    } else if w == seq!['F' as u8, 'U' as u8, 'L' as u8, 'L' as u8] {  // FULL
        Some(TokenType::TK_JOIN_KW)
    } else if w == seq!['G' as u8, 'L' as u8, 'O' as u8, 'B' as u8] {  // GLOB
        Some(TokenType::TK_LIKE_KW)
    } else if w == seq!['I' as u8, 'N' as u8, 'T' as u8, 'O' as u8] {  // INTO
        Some(TokenType::TK_INTO)
    } else if w == seq!['J' as u8, 'O' as u8, 'I' as u8, 'N' as u8] {  // JOIN
        Some(TokenType::TK_JOIN)
    } else if w == seq!['L' as u8, 'E' as u8, 'F' as u8, 'T' as u8] {  // LEFT
        Some(TokenType::TK_JOIN_KW)
    } else if w == seq!['L' as u8, 'I' as u8, 'K' as u8, 'E' as u8] {  // LIKE
        Some(TokenType::TK_LIKE_KW)
    } else if w == seq!['N' as u8, 'U' as u8, 'L' as u8, 'L' as u8] {  // NULL
        Some(TokenType::TK_NULL)
    } else if w == seq!['O' as u8, 'V' as u8, 'E' as u8, 'R' as u8] {  // OVER
        Some(TokenType::TK_OVER)
    } else if w == seq!['P' as u8, 'L' as u8, 'A' as u8, 'N' as u8] {  // PLAN
        Some(TokenType::TK_PLAN)
    } else if w == seq!['R' as u8, 'O' as u8, 'W' as u8, 'S' as u8] {  // ROWS
        Some(TokenType::TK_ROWS)
    } else if w == seq!['T' as u8, 'E' as u8, 'M' as u8, 'P' as u8] {  // TEMP
        Some(TokenType::TK_TEMP)
    } else if w == seq!['T' as u8, 'H' as u8, 'E' as u8, 'N' as u8] {  // THEN
        Some(TokenType::TK_THEN)
    } else if w == seq!['V' as u8, 'I' as u8, 'E' as u8, 'W' as u8] {  // VIEW
        Some(TokenType::TK_VIEW)
    } else if w == seq!['W' as u8, 'H' as u8, 'E' as u8, 'N' as u8] {  // WHEN
        Some(TokenType::TK_WHEN)
    } else if w == seq!['W' as u8, 'I' as u8, 'T' as u8, 'H' as u8] {  // WITH
        Some(TokenType::TK_WITH)
    } else {
        None
    }
}

pub open spec fn keyword_kind_len5(w: Seq<u8>) -> Option<TokenType> {
    if w == seq!['A' as u8, 'B' as u8, 'O' as u8, 'R' as u8, 'T' as u8] {  // ABORT
        Some(TokenType::TK_ABORT)
    } else if w == seq!['A' as u8, 'F' as u8, 'T' as u8, 'E' as u8, 'R' as u8] {  // AFTER
        Some(TokenType::TK_AFTER)
    } else if w == seq!['A' as u8, 'L' as u8, 'T' as u8, 'E' as u8, 'R' as u8] {  // ALTER
        Some(TokenType::TK_ALTER)
    } else if w == seq!['B' as u8, 'E' as u8, 'G' as u8, 'I' as u8, 'N' as u8] {  // BEGIN
        Some(TokenType::TK_BEGIN)
    } else if w == seq!['C' as u8, 'H' as u8, 'E' as u8, 'C' as u8, 'K' as u8] {  // CHECK
        Some(TokenType::TK_CHECK)
    } else if w == seq!['C' as u8, 'R' as u8, 'O' as u8, 'S' as u8, 'S' as u8] {  // CROSS
        Some(TokenType::TK_JOIN_KW)
    } else if w == seq!['G' as u8, 'R' as u8, 'O' as u8, 'U' as u8, 'P' as u8] {  // GROUP
        Some(TokenType::TK_GROUP)
    } else if w == seq!['I' as u8, 'N' as u8, 'D' as u8, 'E' as u8, 'X' as u8] {  // INDEX
        Some(TokenType::TK_INDEX)
    } else if w == seq!['I' as u8, 'N' as u8, 'N' as u8, 'E' as u8, 'R' as u8] {  // INNER
        Some(TokenType::TK_JOIN_KW)
    } else if w == seq!['L' as u8, 'I' as u8, 'M' as u8, 'I' as u8, 'T' as u8] {  // LIMIT
        Some(TokenType::TK_LIMIT)
    } else if w == seq!['M' as u8, 'A' as u8, 'T' as u8, 'C' as u8, 'H' as u8] {  // MATCH
        Some(TokenType::TK_LIKE_KW)
    } else if w == seq!['O' as u8, 'R' as u8, 'D' as u8, 'E' as u8, 'R' as u8] {  // ORDER
        Some(TokenType::TK_ORDER)
    } else if w == seq!['O' as u8, 'U' as u8, 'T' as u8, 'E' as u8, 'R' as u8] {  // OUTER
        Some(TokenType::TK_JOIN_KW)
    } else if w == seq!['Q' as u8, 'U' as u8, 'E' as u8, 'R' as u8, 'Y' as u8] {  // QUERY
        Some(TokenType::TK_QUERY)
    } else if w == seq!['R' as u8, 'A' as u8, 'I' as u8, 'S' as u8, 'E' as u8] {  // RAISE
        Some(TokenType::TK_RAISE)
    } else if w == seq!['R' as u8, 'A' as u8, 'N' as u8, 'G' as u8, 'E' as u8] {  // RANGE
        Some(TokenType::TK_RANGE)
    } else if w == seq!['R' as u8, 'I' as u8, 'G' as u8, 'H' as u8, 'T' as u8] {  // RIGHT
        Some(TokenType::TK_JOIN_KW)
    } else if w == seq!['T' as u8, 'A' as u8, 'B' as u8, 'L' as u8, 'E' as u8] {  // TABLE
        Some(TokenType::TK_TABLE)
    } else if w == seq!['U' as u8, 'N' as u8, 'I' as u8, 'O' as u8, 'N' as u8] {  // UNION
        Some(TokenType::TK_UNION)
    } else if w == seq!['U' as u8, 'S' as u8, 'I' as u8, 'N' as u8, 'G' as u8] {  // USING
        Some(TokenType::TK_USING)
    } else if w == seq!['W' as u8, 'H' as u8, 'E' as u8, 'R' as u8, 'E' as u8] {  // WHERE
        Some(TokenType::TK_WHERE)
    } else {
        None
    }
}

pub open spec fn keyword_kind_len6(w: Seq<u8>) -> Option<TokenType> {
    if w == seq!['A' as u8, 'C' as u8, 'T' as u8, 'I' as u8, 'O' as u8, 'N' as u8] {  // ACTION
        Some(TokenType::TK_ACTION)
    } else if w == seq!['A' as u8, 'T' as u8, 'T' as u8, 'A' as u8, 'C' as u8, 'H' as u8] {  // ATTACH
        Some(TokenType::TK_ATTACH)
    } else if w == seq!['B' as u8, 'E' as u8, 'F' as u8, 'O' as u8, 'R' as u8, 'E' as u8] {  // BEFORE
        Some(TokenType::TK_BEFORE)
    } else if w == seq!['C' as u8, 'O' as u8, 'L' as u8, 'U' as u8, 'M' as u8, 'N' as u8] {  // COLUMN
        Some(TokenType::TK_COLUMNKW)
    } else if w == seq!['C' as u8, 'O' as u8, 'M' as u8, 'M' as u8, 'I' as u8, 'T' as u8] {  // COMMIT
        Some(TokenType::TK_COMMIT)
    } else if w == seq!['C' as u8, 'R' as u8, 'E' as u8, 'A' as u8, 'T' as u8, 'E' as u8] {  // CREATE
        Some(TokenType::TK_CREATE)
    } else if w == seq!['D' as u8, 'E' as u8, 'L' as u8, 'E' as u8, 'T' as u8, 'E' as u8] {  // DELETE
        Some(TokenType::TK_DELETE)
    } else if w == seq!['D' as u8, 'E' as u8, 'T' as u8, 'A' as u8, 'C' as u8, 'H' as u8] {  // DETACH
        Some(TokenType::TK_DETACH)
    } else if w == seq!['E' as u8, 'S' as u8, 'C' as u8, 'A' as u8, 'P' as u8, 'E' as u8] {  // ESCAPE
        Some(TokenType::TK_ESCAPE)
    } else if w == seq!['E' as u8, 'X' as u8, 'C' as u8, 'E' as u8, 'P' as u8, 'T' as u8] {  // EXCEPT
        Some(TokenType::TK_EXCEPT)
    } else if w == seq!['E' as u8, 'X' as u8, 'I' as u8, 'S' as u8, 'T' as u8, 'S' as u8] {  // EXISTS
        Some(TokenType::TK_EXISTS)
    } else if w == seq!['F' as u8, 'I' as u8, 'L' as u8, 'T' as u8, 'E' as u8, 'R' as u8] {  // FILTER
        Some(TokenType::TK_FILTER)
    } else if w == seq!['H' as u8, 'A' as u8, 'V' as u8, 'I' as u8, 'N' as u8, 'G' as u8] {  // HAVING
        Some(TokenType::TK_HAVING)
    } else if w == seq!['I' as u8, 'G' as u8, 'N' as u8, 'O' as u8, 'R' as u8, 'E' as u8] {  // IGNORE
        Some(TokenType::TK_IGNORE)
    } else if w == seq!['I' as u8, 'N' as u8, 'S' as u8, 'E' as u8, 'R' as u8, 'T' as u8] {  // INSERT
        Some(TokenType::TK_INSERT)
    } else if w == seq!['I' as u8, 'S' as u8, 'N' as u8, 'U' as u8, 'L' as u8, 'L' as u8] {  // ISNULL
        Some(TokenType::TK_ISNULL)
    } else if w == seq!['O' as u8, 'F' as u8, 'F' as u8, 'S' as u8, 'E' as u8, 'T' as u8] {  // OFFSET
        Some(TokenType::TK_OFFSET)
    } else if w == seq!['P' as u8, 'R' as u8, 'A' as u8, 'G' as u8, 'M' as u8, 'A' as u8] {  // PRAGMA
        Some(TokenType::TK_PRAGMA)
    } else if w == seq!['R' as u8, 'E' as u8, 'G' as u8, 'E' as u8, 'X' as u8, 'P' as u8] {  // REGEXP
        Some(TokenType::TK_LIKE_KW)
    } else if w == seq!['R' as u8, 'E' as u8, 'N' as u8, 'A' as u8, 'M' as u8, 'E' as u8] {  // RENAME
        Some(TokenType::TK_RENAME)
    } else if w == seq!['S' as u8, 'E' as u8, 'L' as u8, 'E' as u8, 'C' as u8, 'T' as u8] {  // SELECT
        Some(TokenType::TK_SELECT)
    } else if w == seq!['U' as u8, 'N' as u8, 'I' as u8, 'Q' as u8, 'U' as u8, 'E' as u8] {  // UNIQUE
        Some(TokenType::TK_UNIQUE)
    } else if w == seq!['U' as u8, 'P' as u8, 'D' as u8, 'A' as u8, 'T' as u8, 'E' as u8] {  // UPDATE
        Some(TokenType::TK_UPDATE)
    } else if w == seq!['V' as u8, 'A' as u8, 'C' as u8, 'U' as u8, 'U' as u8, 'M' as u8] {  // VACUUM
        Some(TokenType::TK_VACUUM)
    } else if w == seq!['V' as u8, 'A' as u8, 'L' as u8, 'U' as u8, 'E' as u8, 'S' as u8] {  // VALUES
        Some(TokenType::TK_VALUES)
    } else if w == seq!['W' as u8, 'I' as u8, 'N' as u8, 'D' as u8, 'O' as u8, 'W' as u8] {  // WINDOW
        Some(TokenType::TK_WINDOW)
    } else {
        None
    }
}

pub open spec fn keyword_kind_len7(w: Seq<u8>) -> Option<TokenType> {
    if w == seq!['A' as u8, 'N' as u8, 'A' as u8, 'L' as u8, 'Y' as u8, 'Z' as u8, 'E' as u8] {  // ANALYZE
        Some(TokenType::TK_ANALYZE)
    } else if w == seq!['B' as u8, 'E' as u8, 'T' as u8, 'W' as u8, 'E' as u8, 'E' as u8, 'N' as u8] {  // BETWEEN
        Some(TokenType::TK_BETWEEN)
    } else if w == seq!['C' as u8, 'A' as u8, 'S' as u8, 'C' as u8, 'A' as u8, 'D' as u8, 'E' as u8] {  // CASCADE
        Some(TokenType::TK_CASCADE)
    } else if w == seq!['C' as u8, 'O' as u8, 'L' as u8, 'L' as u8, 'A' as u8, 'T' as u8, 'E' as u8] {  // COLLATE
        Some(TokenType::TK_COLLATE)
    } else if w == seq!['C' as u8, 'U' as u8, 'R' as u8, 'R' as u8, 'E' as u8, 'N' as u8, 'T' as u8] {  // CURRENT
        Some(TokenType::TK_CURRENT)
    } else if w == seq!['D' as u8, 'E' as u8, 'F' as u8, 'A' as u8, 'U' as u8, 'L' as u8, 'T' as u8] {  // DEFAULT
        Some(TokenType::TK_DEFAULT)
    } else if w == seq!['E' as u8, 'X' as u8, 'P' as u8, 'L' as u8, 'A' as u8, 'I' as u8, 'N' as u8] {  // EXPLAIN
        Some(TokenType::TK_EXPLAIN)
    } else if w == seq!['F' as u8, 'O' as u8, 'R' as u8, 'E' as u8, 'I' as u8, 'G' as u8, 'N' as u8] {  // FOREIGN
        Some(TokenType::TK_FOREIGN)
    } else if w == seq!['I' as u8, 'N' as u8, 'D' as u8, 'E' as u8, 'X' as u8, 'E' as u8, 'D' as u8] {  // INDEXED
        Some(TokenType::TK_INDEXED)
    } else if w == seq!['I' as u8, 'N' as u8, 'S' as u8, 'T' as u8, 'E' as u8, 'A' as u8, 'D' as u8] {  // INSTEAD
        Some(TokenType::TK_INSTEAD)
    } else if w == seq!['N' as u8, 'A' as u8, 'T' as u8, 'U' as u8, 'R' as u8, 'A' as u8, 'L' as u8] {  // NATURAL
        Some(TokenType::TK_JOIN_KW)
    } else if w == seq!['N' as u8, 'O' as u8, 'T' as u8, 'H' as u8, 'I' as u8, 'N' as u8, 'G' as u8] {  // NOTHING
        Some(TokenType::TK_NOTHING)
    } else if w == seq!['N' as u8, 'O' as u8, 'T' as u8, 'N' as u8, 'U' as u8, 'L' as u8, 'L' as u8] {  // NOTNULL
        Some(TokenType::TK_NOTNULL)
    } else if w == seq!['P' as u8, 'R' as u8, 'I' as u8, 'M' as u8, 'A' as u8, 'R' as u8, 'Y' as u8] {  // PRIMARY
        Some(TokenType::TK_PRIMARY)
    } else if w == seq!['R' as u8, 'E' as u8, 'I' as u8, 'N' as u8, 'D' as u8, 'E' as u8, 'X' as u8] {  // REINDEX
        Some(TokenType::TK_REINDEX)
    } else if w == seq!['R' as u8, 'E' as u8, 'L' as u8, 'E' as u8, 'A' as u8, 'S' as u8, 'E' as u8] {  // RELEASE
        Some(TokenType::TK_RELEASE)
    } else if w == seq!['R' as u8, 'E' as u8, 'P' as u8, 'L' as u8, 'A' as u8, 'C' as u8, 'E' as u8] {  // REPLACE
        Some(TokenType::TK_REPLACE)
    } else if w == seq!['T' as u8, 'R' as u8, 'I' as u8, 'G' as u8, 'G' as u8, 'E' as u8, 'R' as u8] {  // TRIGGER
        Some(TokenType::TK_TRIGGER)
    } else if w == seq!['V' as u8, 'I' as u8, 'R' as u8, 'T' as u8, 'U' as u8, 'A' as u8, 'L' as u8] {  // VIRTUAL
        Some(TokenType::TK_VIRTUAL)
    } else if w == seq!['W' as u8, 'I' as u8, 'T' as u8, 'H' as u8, 'O' as u8, 'U' as u8, 'T' as u8] {  // WITHOUT
        Some(TokenType::TK_WITHOUT)
    } else {
        None
    }
}

pub open spec fn keyword_kind_len8(w: Seq<u8>) -> Option<TokenType> {
    if w == seq!['C' as u8, 'O' as u8, 'N' as u8, 'F' as u8, 'L' as u8, 'I' as u8, 'C' as u8, 'T' as u8] {  // CONFLICT
        Some(TokenType::TK_CONFLICT)
    } else if w == seq!['D' as u8, 'A' as u8, 'T' as u8, 'A' as u8, 'B' as u8, 'A' as u8, 'S' as u8, 'E' as u8] {  // DATABASE
        Some(TokenType::TK_DATABASE)
    } else if w == seq!['D' as u8, 'E' as u8, 'F' as u8, 'E' as u8, 'R' as u8, 'R' as u8, 'E' as u8, 'D' as u8] {  // DEFERRED
        Some(TokenType::TK_DEFERRED)
    } else if w == seq!['D' as u8, 'I' as u8, 'S' as u8, 'T' as u8, 'I' as u8, 'N' as u8, 'C' as u8, 'T' as u8] {  // DISTINCT
        Some(TokenType::TK_DISTINCT)
    } else if w == seq!['R' as u8, 'E' as u8, 'S' as u8, 'T' as u8, 'R' as u8, 'I' as u8, 'C' as u8, 'T' as u8] {  // RESTRICT
        Some(TokenType::TK_RESTRICT)
    } else if w == seq!['R' as u8, 'O' as u8, 'L' as u8, 'L' as u8, 'B' as u8, 'A' as u8, 'C' as u8, 'K' as u8] {  // ROLLBACK
        Some(TokenType::TK_ROLLBACK)
    } else {
        None
    }
}

pub open spec fn keyword_kind_len9(w: Seq<u8>) -> Option<TokenType> {
    if w == seq!['E' as u8, 'X' as u8, 'C' as u8, 'L' as u8, 'U' as u8, 'S' as u8, 'I' as u8, 'V' as u8, 'E' as u8] {  // EXCLUSIVE
        Some(TokenType::TK_EXCLUSIVE)
    } else if w == seq!['F' as u8, 'O' as u8, 'L' as u8, 'L' as u8, 'O' as u8, 'W' as u8, 'I' as u8, 'N' as u8, 'G' as u8] {  // FOLLOWING
        Some(TokenType::TK_FOLLOWING)
    } else if w == seq!['I' as u8, 'M' as u8, 'M' as u8, 'E' as u8, 'D' as u8, 'I' as u8, 'A' as u8, 'T' as u8, 'E' as u8] {  // IMMEDIATE
        Some(TokenType::TK_IMMEDIATE)
    } else if w == seq!['I' as u8, 'N' as u8, 'I' as u8, 'T' as u8, 'I' as u8, 'A' as u8, 'L' as u8, 'L' as u8, 'Y' as u8] {  // INITIALLY
        Some(TokenType::TK_INITIALLY)
    } else if w == seq!['I' as u8, 'N' as u8, 'T' as u8, 'E' as u8, 'R' as u8, 'S' as u8, 'E' as u8, 'C' as u8, 'T' as u8] {  // INTERSECT
        Some(TokenType::TK_INTERSECT)
    } else if w == seq!['P' as u8, 'A' as u8, 'R' as u8, 'T' as u8, 'I' as u8, 'T' as u8, 'I' as u8, 'O' as u8, 'N' as u8] {  // PARTITION
        Some(TokenType::TK_PARTITION)
    } else if w == seq!['P' as u8, 'R' as u8, 'E' as u8, 'C' as u8, 'E' as u8, 'D' as u8, 'I' as u8, 'N' as u8, 'G' as u8] {  // PRECEDING
        Some(TokenType::TK_PRECEDING)
    } else if w == seq!['R' as u8, 'E' as u8, 'C' as u8, 'U' as u8, 'R' as u8, 'S' as u8, 'I' as u8, 'V' as u8, 'E' as u8] {  // RECURSIVE
        Some(TokenType::TK_RECURSIVE)
    } else if w == seq!['S' as u8, 'A' as u8, 'V' as u8, 'E' as u8, 'P' as u8, 'O' as u8, 'I' as u8, 'N' as u8, 'T' as u8] {  // SAVEPOINT
        Some(TokenType::TK_SAVEPOINT)
    } else if w == seq!['T' as u8, 'E' as u8, 'M' as u8, 'P' as u8, 'O' as u8, 'R' as u8, 'A' as u8, 'R' as u8, 'Y' as u8] {  // TEMPORARY
        Some(TokenType::TK_TEMP)
    } else if w == seq!['U' as u8, 'N' as u8, 'B' as u8, 'O' as u8, 'U' as u8, 'N' as u8, 'D' as u8, 'E' as u8, 'D' as u8] {  // UNBOUNDED
        Some(TokenType::TK_UNBOUNDED)
    } else {
        None
    }
}

pub open spec fn keyword_kind_len10(w: Seq<u8>) -> Option<TokenType> {
    if w == seq!['C' as u8, 'O' as u8, 'N' as u8, 'S' as u8, 'T' as u8, 'R' as u8, 'A' as u8, 'I' as u8, 'N' as u8, 'T' as u8] {  // CONSTRAINT
        Some(TokenType::TK_CONSTRAINT)
    } else if w == seq!['D' as u8, 'E' as u8, 'F' as u8, 'E' as u8, 'R' as u8, 'R' as u8, 'A' as u8, 'B' as u8, 'L' as u8, 'E' as u8] {  // DEFERRABLE
        Some(TokenType::TK_DEFERRABLE)
    } else if w == seq!['R' as u8, 'E' as u8, 'F' as u8, 'E' as u8, 'R' as u8, 'E' as u8, 'N' as u8, 'C' as u8, 'E' as u8, 'S' as u8] {  // REFERENCES
        Some(TokenType::TK_REFERENCES)
    } else {
        None
    }
}

pub open spec fn keyword_kind_len11(w: Seq<u8>) -> Option<TokenType> {
    if w == seq!['T' as u8, 'R' as u8, 'A' as u8, 'N' as u8, 'S' as u8, 'A' as u8, 'C' as u8, 'T' as u8, 'I' as u8, 'O' as u8, 'N' as u8] {  // TRANSACTION
        Some(TokenType::TK_TRANSACTION)
    } else {
        None
    }
}

pub open spec fn keyword_kind_len12(w: Seq<u8>) -> Option<TokenType> {
    if w == seq!['C' as u8, 'U' as u8, 'R' as u8, 'R' as u8, 'E' as u8, 'N' as u8, 'T' as u8, '_' as u8, 'D' as u8, 'A' as u8, 'T' as u8, 'E' as u8] {  // CURRENT_DATE
        Some(TokenType::TK_CTIME_KW)
    } else if w == seq!['C' as u8, 'U' as u8, 'R' as u8, 'R' as u8, 'E' as u8, 'N' as u8, 'T' as u8, '_' as u8, 'T' as u8, 'I' as u8, 'M' as u8, 'E' as u8] {  // CURRENT_TIME
        Some(TokenType::TK_CTIME_KW)
    } else {
        None
    }
}

pub open spec fn keyword_kind_len13(w: Seq<u8>) -> Option<TokenType> {
    if w == seq!['A' as u8, 'U' as u8, 'T' as u8, 'O' as u8, 'I' as u8, 'N' as u8, 'C' as u8, 'R' as u8, 'E' as u8, 'M' as u8, 'E' as u8, 'N' as u8, 'T' as u8] {  // AUTOINCREMENT
        Some(TokenType::TK_AUTOINCR)
    } else {
        None
    }
}

pub open spec fn keyword_kind_len17(w: Seq<u8>) -> Option<TokenType> {
    if w == seq!['C' as u8, 'U' as u8, 'R' as u8, 'R' as u8, 'E' as u8, 'N' as u8, 'T' as u8, '_' as u8, 'T' as u8, 'I' as u8, 'M' as u8, 'E' as u8, 'S' as u8, 'T' as u8, 'A' as u8, 'M' as u8, 'P' as u8] {  // CURRENT_TIMESTAMP
        Some(TokenType::TK_CTIME_KW)
    } else {
        None
    }
}

/// The keyword table as one map from byte key to terminal kind.
pub open spec fn keyword_kind_of(w: Seq<u8>) -> Option<TokenType> {
    if w.len() == 2 {
        keyword_kind_len2(w)
    } else if w.len() == 3 {
        keyword_kind_len3(w)
    } else if w.len() == 4 {
        keyword_kind_len4(w)
    } else if w.len() == 5 {
        keyword_kind_len5(w)
    } else if w.len() == 6 {
        keyword_kind_len6(w)
    } else if w.len() == 7 {
        keyword_kind_len7(w)
    } else if w.len() == 8 {
        keyword_kind_len8(w)
    } else if w.len() == 9 {
        keyword_kind_len9(w)
    } else if w.len() == 10 {
        keyword_kind_len10(w)
    } else if w.len() == 11 {
        keyword_kind_len11(w)
    } else if w.len() == 12 {
        keyword_kind_len12(w)
    } else if w.len() == 13 {
        keyword_kind_len13(w)
    } else if w.len() == 17 {
        keyword_kind_len17(w)
    } else {
        None
    }
}

fn eq2(w: &[u8], b0: u8, b1: u8) -> (r: bool)
    ensures
        r == (w@ == seq![b0, b1]),
{
    if w.len() == 2 && w[0] == b0 && w[1] == b1 {
        proof {
            assert(w@ =~= seq![b0, b1]);
        }
        true
    } else {
        false
    }
}

fn eq3(w: &[u8], b0: u8, b1: u8, b2: u8) -> (r: bool)
    ensures
        r == (w@ == seq![b0, b1, b2]),
{
    if w.len() == 3 && w[0] == b0 && w[1] == b1 && w[2] == b2 {
        proof {
            assert(w@ =~= seq![b0, b1, b2]);
        }
        true
    } else {
        false
    }
}

fn eq4(w: &[u8], b0: u8, b1: u8, b2: u8, b3: u8) -> (r: bool)
    ensures
        r == (w@ == seq![b0, b1, b2, b3]),
{
    if w.len() == 4 && w[0] == b0 && w[1] == b1 && w[2] == b2 && w[3] == b3 {
        proof {
            assert(w@ =~= seq![b0, b1, b2, b3]);
        }
        true
    } else {
        false
    }
}

fn eq5(w: &[u8], b0: u8, b1: u8, b2: u8, b3: u8, b4: u8) -> (r: bool)
    ensures
        r == (w@ == seq![b0, b1, b2, b3, b4]),
{
    if w.len() == 5 && w[0] == b0 && w[1] == b1 && w[2] == b2 && w[3] == b3 && w[4] == b4 {
        proof {
            assert(w@ =~= seq![b0, b1, b2, b3, b4]);
        }
        true
    } else {
        false
    }
}

fn eq6(w: &[u8], b0: u8, b1: u8, b2: u8, b3: u8, b4: u8, b5: u8) -> (r: bool)
    ensures
        r == (w@ == seq![b0, b1, b2, b3, b4, b5]),
{
    if w.len() == 6 && w[0] == b0 && w[1] == b1 && w[2] == b2 && w[3] == b3 && w[4] == b4 && w[5] == b5 {
        proof {
            assert(w@ =~= seq![b0, b1, b2, b3, b4, b5]);
        }
        true
    } else {
        false
    }
}

fn eq7(w: &[u8], b0: u8, b1: u8, b2: u8, b3: u8, b4: u8, b5: u8, b6: u8) -> (r: bool)
    ensures
        r == (w@ == seq![b0, b1, b2, b3, b4, b5, b6]),
{
    if w.len() == 7 && w[0] == b0 && w[1] == b1 && w[2] == b2 && w[3] == b3 && w[4] == b4 && w[5] == b5 && w[6] == b6 {
        proof {
            assert(w@ =~= seq![b0, b1, b2, b3, b4, b5, b6]);
        }
        true
    } else {
        false
    }
}

fn eq8(w: &[u8], b0: u8, b1: u8, b2: u8, b3: u8, b4: u8, b5: u8, b6: u8, b7: u8) -> (r: bool)
    ensures
        r == (w@ == seq![b0, b1, b2, b3, b4, b5, b6, b7]),
{
    if w.len() == 8 && w[0] == b0 && w[1] == b1 && w[2] == b2 && w[3] == b3 && w[4] == b4 && w[5] == b5 && w[6] == b6 && w[7] == b7 {
        proof {
            assert(w@ =~= seq![b0, b1, b2, b3, b4, b5, b6, b7]);
        }
        true
    } else {
        false
    }
}

fn eq9(w: &[u8], b0: u8, b1: u8, b2: u8, b3: u8, b4: u8, b5: u8, b6: u8, b7: u8, b8: u8) -> (r: bool)
    ensures
        r == (w@ == seq![b0, b1, b2, b3, b4, b5, b6, b7, b8]),
{
    if w.len() == 9 && w[0] == b0 && w[1] == b1 && w[2] == b2 && w[3] == b3 && w[4] == b4 && w[5] == b5 && w[6] == b6 && w[7] == b7 && w[8] == b8 {
        proof {
            assert(w@ =~= seq![b0, b1, b2, b3, b4, b5, b6, b7, b8]);
        }
        true
    } else {
        false
    }
}

fn eq10(w: &[u8], b0: u8, b1: u8, b2: u8, b3: u8, b4: u8, b5: u8, b6: u8, b7: u8, b8: u8, b9: u8) -> (r: bool)
    ensures
        r == (w@ == seq![b0, b1, b2, b3, b4, b5, b6, b7, b8, b9]),
{
    if w.len() == 10 && w[0] == b0 && w[1] == b1 && w[2] == b2 && w[3] == b3 && w[4] == b4 && w[5] == b5 && w[6] == b6 && w[7] == b7 && w[8] == b8 && w[9] == b9 {
        proof {
            assert(w@ =~= seq![b0, b1, b2, b3, b4, b5, b6, b7, b8, b9]);
        }
        true
    } else {
        false
    }
}

fn eq11(w: &[u8], b0: u8, b1: u8, b2: u8, b3: u8, b4: u8, b5: u8, b6: u8, b7: u8, b8: u8, b9: u8, b10: u8) -> (r: bool)
    ensures
        r == (w@ == seq![b0, b1, b2, b3, b4, b5, b6, b7, b8, b9, b10]),
{
    if w.len() == 11 && w[0] == b0 && w[1] == b1 && w[2] == b2 && w[3] == b3 && w[4] == b4 && w[5] == b5 && w[6] == b6 && w[7] == b7 && w[8] == b8 && w[9] == b9 && w[10] == b10 {
        proof {
            assert(w@ =~= seq![b0, b1, b2, b3, b4, b5, b6, b7, b8, b9, b10]);
        }
        true
    } else {
        false
    }
}

fn eq12(w: &[u8], b0: u8, b1: u8, b2: u8, b3: u8, b4: u8, b5: u8, b6: u8, b7: u8, b8: u8, b9: u8, b10: u8, b11: u8) -> (r: bool)
    ensures
        r == (w@ == seq![b0, b1, b2, b3, b4, b5, b6, b7, b8, b9, b10, b11]),
{
    if w.len() == 12 && w[0] == b0 && w[1] == b1 && w[2] == b2 && w[3] == b3 && w[4] == b4 && w[5] == b5 && w[6] == b6 && w[7] == b7 && w[8] == b8 && w[9] == b9 && w[10] == b10 && w[11] == b11 {
        proof {
            assert(w@ =~= seq![b0, b1, b2, b3, b4, b5, b6, b7, b8, b9, b10, b11]);
        }
        true
    } else {
        false
    }
}

fn eq13(w: &[u8], b0: u8, b1: u8, b2: u8, b3: u8, b4: u8, b5: u8, b6: u8, b7: u8, b8: u8, b9: u8, b10: u8, b11: u8, b12: u8) -> (r: bool)
    ensures
        r == (w@ == seq![b0, b1, b2, b3, b4, b5, b6, b7, b8, b9, b10, b11, b12]),
{
    if w.len() == 13 && w[0] == b0 && w[1] == b1 && w[2] == b2 && w[3] == b3 && w[4] == b4 && w[5] == b5 && w[6] == b6 && w[7] == b7 && w[8] == b8 && w[9] == b9 && w[10] == b10 && w[11] == b11 && w[12] == b12 {
        proof {
            assert(w@ =~= seq![b0, b1, b2, b3, b4, b5, b6, b7, b8, b9, b10, b11, b12]);
        }
        true
    } else {
        false
    }
}

fn eq17(w: &[u8], b0: u8, b1: u8, b2: u8, b3: u8, b4: u8, b5: u8, b6: u8, b7: u8, b8: u8, b9: u8, b10: u8, b11: u8, b12: u8, b13: u8, b14: u8, b15: u8, b16: u8) -> (r: bool)
    ensures
        r == (w@ == seq![b0, b1, b2, b3, b4, b5, b6, b7, b8, b9, b10, b11, b12, b13, b14, b15, b16]),
{
    if w.len() == 17 && w[0] == b0 && w[1] == b1 && w[2] == b2 && w[3] == b3 && w[4] == b4 && w[5] == b5 && w[6] == b6 && w[7] == b7 && w[8] == b8 && w[9] == b9 && w[10] == b10 && w[11] == b11 && w[12] == b12 && w[13] == b13 && w[14] == b14 && w[15] == b15 && w[16] == b16 {
        proof {
            assert(w@ =~= seq![b0, b1, b2, b3, b4, b5, b6, b7, b8, b9, b10, b11, b12, b13, b14, b15, b16]);
        }
        true
    } else {
        false
    }
}

fn keyword_token_len2(word: &[u8]) -> (r: Option<TokenType>)
    ensures
        r == keyword_kind_len2(word@),
{
    if eq2(word, 'A' as u8, 'S' as u8) {  // AS
        Some(TokenType::TK_AS)
    } else if eq2(word, 'B' as u8, 'Y' as u8) {  // BY
        Some(TokenType::TK_BY)
    } else if eq2(word, 'D' as u8, 'O' as u8) {  // DO
        Some(TokenType::TK_DO)
    } else if eq2(word, 'I' as u8, 'F' as u8) {  // IF
        Some(TokenType::TK_IF)
    } else if eq2(word, 'I' as u8, 'N' as u8) {  // IN
        Some(TokenType::TK_IN)
    } else if eq2(word, 'I' as u8, 'S' as u8) {  // IS
        Some(TokenType::TK_IS)
    } else if eq2(word, 'N' as u8, 'O' as u8) {  // NO
        Some(TokenType::TK_NO)
    } else if eq2(word, 'O' as u8, 'F' as u8) {  // OF
        Some(TokenType::TK_OF)
    } else if eq2(word, 'O' as u8, 'N' as u8) {  // ON
        Some(TokenType::TK_ON)
    } else if eq2(word, 'O' as u8, 'R' as u8) {  // OR
        Some(TokenType::TK_OR)
    } else if eq2(word, 'T' as u8, 'O' as u8) {  // TO
        Some(TokenType::TK_TO)
    } else {
        None
    }
}

fn keyword_token_len3(word: &[u8]) -> (r: Option<TokenType>)
    ensures
        r == keyword_kind_len3(word@),
{
    if eq3(word, 'A' as u8, 'D' as u8, 'D' as u8) {  // ADD
        Some(TokenType::TK_ADD)
    } else if eq3(word, 'A' as u8, 'L' as u8, 'L' as u8) {  // ALL
        Some(TokenType::TK_ALL)
    } else if eq3(word, 'A' as u8, 'N' as u8, 'D' as u8) {  // AND
        Some(TokenType::TK_AND)
    } else if eq3(word, 'A' as u8, 'S' as u8, 'C' as u8) {  // ASC
        Some(TokenType::TK_ASC)
    } else if eq3(word, 'E' as u8, 'N' as u8, 'D' as u8) {  // END
        Some(TokenType::TK_END)
    } else if eq3(word, 'F' as u8, 'O' as u8, 'R' as u8) {  // FOR
        Some(TokenType::TK_FOR)
    } else if eq3(word, 'K' as u8, 'E' as u8, 'Y' as u8) {  // KEY
        Some(TokenType::TK_KEY)
    } else if eq3(word, 'N' as u8, 'O' as u8, 'T' as u8) {  // NOT
        Some(TokenType::TK_NOT)
    } else if eq3(word, 'R' as u8, 'O' as u8, 'W' as u8) {  // ROW
        Some(TokenType::TK_ROW)
    } else if eq3(word, 'S' as u8, 'E' as u8, 'T' as u8) {  // SET
        Some(TokenType::TK_SET)
    } else {
        None
    }
}

fn keyword_token_len4(word: &[u8]) -> (r: Option<TokenType>)
    ensures
        r == keyword_kind_len4(word@),
{
    if eq4(word, 'C' as u8, 'A' as u8, 'S' as u8, 'E' as u8) {  // CASE
        Some(TokenType::TK_CASE)
    } else if eq4(word, 'C' as u8, 'A' as u8, 'S' as u8, 'T' as u8) {  // CAST
        Some(TokenType::TK_CAST)
    } else if eq4(word, 'D' as u8, 'E' as u8, 'S' as u8, 'C' as u8) {  // DESC
        Some(TokenType::TK_DESC)
    } else if eq4(word, 'D' as u8, 'R' as u8, 'O' as u8, 'P' as u8) {  // DROP
        Some(TokenType::TK_DROP)
    } else if eq4(word, 'E' as u8, 'A' as u8, 'C' as u8, 'H' as u8) {  // EACH
        Some(TokenType::TK_EACH)
    } else if eq4(word, 'E' as u8, 'L' as u8, 'S' as u8, 'E' as u8) {  // ELSE
        Some(TokenType::TK_ELSE)
    } else if eq4(word, 'F' as u8, 'A' as u8, 'I' as u8, 'L' as u8) {  // FAIL
        Some(TokenType::TK_FAIL)
    } else if eq4(word, 'F' as u8, 'R' as u8, 'O' as u8, 'M' as u8) {  // FROM
        Some(TokenType::TK_FROM)
    } else if eq4(word, 'F' as u8, 'U' as u8, 'L' as u8, 'L' as u8) {  // FULL
        Some(TokenType::TK_JOIN_KW)
    } else if eq4(word, 'G' as u8, 'L' as u8, 'O' as u8, 'B' as u8) {  // GLOB
        Some(TokenType::TK_LIKE_KW)
    } else if eq4(word, 'I' as u8, 'N' as u8, 'T' as u8, 'O' as u8) {  // INTO
        Some(TokenType::TK_INTO)
    } else if eq4(word, 'J' as u8, 'O' as u8, 'I' as u8, 'N' as u8) {  // JOIN
        Some(TokenType::TK_JOIN)
    } else if eq4(word, 'L' as u8, 'E' as u8, 'F' as u8, 'T' as u8) {  // LEFT
        Some(TokenType::TK_JOIN_KW)
    } else if eq4(word, 'L' as u8, 'I' as u8, 'K' as u8, 'E' as u8) {  // LIKE
        Some(TokenType::TK_LIKE_KW)
    } else if eq4(word, 'N' as u8, 'U' as u8, 'L' as u8, 'L' as u8) {  // NULL
        Some(TokenType::TK_NULL)
    } else if eq4(word, 'O' as u8, 'V' as u8, 'E' as u8, 'R' as u8) {  // OVER
        Some(TokenType::TK_OVER)
    } else if eq4(word, 'P' as u8, 'L' as u8, 'A' as u8, 'N' as u8) {  // PLAN
        Some(TokenType::TK_PLAN)
    } else if eq4(word, 'R' as u8, 'O' as u8, 'W' as u8, 'S' as u8) {  // ROWS
        Some(TokenType::TK_ROWS)
    } else if eq4(word, 'T' as u8, 'E' as u8, 'M' as u8, 'P' as u8) {  // TEMP
        Some(TokenType::TK_TEMP)
    } else if eq4(word, 'T' as u8, 'H' as u8, 'E' as u8, 'N' as u8) {  // THEN
        Some(TokenType::TK_THEN)
    } else if eq4(word, 'V' as u8, 'I' as u8, 'E' as u8, 'W' as u8) {  // VIEW
        Some(TokenType::TK_VIEW)
    } else if eq4(word, 'W' as u8, 'H' as u8, 'E' as u8, 'N' as u8) {  // WHEN
        Some(TokenType::TK_WHEN)
    } else if eq4(word, 'W' as u8, 'I' as u8, 'T' as u8, 'H' as u8) {  // WITH
        Some(TokenType::TK_WITH)
    } else {
        None
    }
}

fn keyword_token_len5(word: &[u8]) -> (r: Option<TokenType>)
    ensures
        r == keyword_kind_len5(word@),
{
    if eq5(word, 'A' as u8, 'B' as u8, 'O' as u8, 'R' as u8, 'T' as u8) {  // ABORT
        Some(TokenType::TK_ABORT)
    } else if eq5(word, 'A' as u8, 'F' as u8, 'T' as u8, 'E' as u8, 'R' as u8) {  // AFTER
        Some(TokenType::TK_AFTER)
    } else if eq5(word, 'A' as u8, 'L' as u8, 'T' as u8, 'E' as u8, 'R' as u8) {  // ALTER
        Some(TokenType::TK_ALTER)
    } else if eq5(word, 'B' as u8, 'E' as u8, 'G' as u8, 'I' as u8, 'N' as u8) {  // BEGIN
        Some(TokenType::TK_BEGIN)
    } else if eq5(word, 'C' as u8, 'H' as u8, 'E' as u8, 'C' as u8, 'K' as u8) {  // CHECK
        Some(TokenType::TK_CHECK)
    } else if eq5(word, 'C' as u8, 'R' as u8, 'O' as u8, 'S' as u8, 'S' as u8) {  // CROSS
        Some(TokenType::TK_JOIN_KW)
    } else if eq5(word, 'G' as u8, 'R' as u8, 'O' as u8, 'U' as u8, 'P' as u8) {  // GROUP
        Some(TokenType::TK_GROUP)
    } else if eq5(word, 'I' as u8, 'N' as u8, 'D' as u8, 'E' as u8, 'X' as u8) {  // INDEX
        Some(TokenType::TK_INDEX)
    } else if eq5(word, 'I' as u8, 'N' as u8, 'N' as u8, 'E' as u8, 'R' as u8) {  // INNER
        Some(TokenType::TK_JOIN_KW)
    } else if eq5(word, 'L' as u8, 'I' as u8, 'M' as u8, 'I' as u8, 'T' as u8) {  // LIMIT
        Some(TokenType::TK_LIMIT)
    } else if eq5(word, 'M' as u8, 'A' as u8, 'T' as u8, 'C' as u8, 'H' as u8) {  // MATCH
        Some(TokenType::TK_LIKE_KW)
    } else if eq5(word, 'O' as u8, 'R' as u8, 'D' as u8, 'E' as u8, 'R' as u8) {  // ORDER
        Some(TokenType::TK_ORDER)
    } else if eq5(word, 'O' as u8, 'U' as u8, 'T' as u8, 'E' as u8, 'R' as u8) {  // OUTER
        Some(TokenType::TK_JOIN_KW)
    } else if eq5(word, 'Q' as u8, 'U' as u8, 'E' as u8, 'R' as u8, 'Y' as u8) {  // QUERY
        Some(TokenType::TK_QUERY)
    } else if eq5(word, 'R' as u8, 'A' as u8, 'I' as u8, 'S' as u8, 'E' as u8) {  // RAISE
        Some(TokenType::TK_RAISE)
    } else if eq5(word, 'R' as u8, 'A' as u8, 'N' as u8, 'G' as u8, 'E' as u8) {  // RANGE
        Some(TokenType::TK_RANGE)
    } else if eq5(word, 'R' as u8, 'I' as u8, 'G' as u8, 'H' as u8, 'T' as u8) {  // RIGHT
        Some(TokenType::TK_JOIN_KW)
    } else if eq5(word, 'T' as u8, 'A' as u8, 'B' as u8, 'L' as u8, 'E' as u8) {  // TABLE
        Some(TokenType::TK_TABLE)
    } else if eq5(word, 'U' as u8, 'N' as u8, 'I' as u8, 'O' as u8, 'N' as u8) {  // UNION
        Some(TokenType::TK_UNION)
    } else if eq5(word, 'U' as u8, 'S' as u8, 'I' as u8, 'N' as u8, 'G' as u8) {  // USING
        Some(TokenType::TK_USING)
    } else if eq5(word, 'W' as u8, 'H' as u8, 'E' as u8, 'R' as u8, 'E' as u8) {  // WHERE
        Some(TokenType::TK_WHERE)
    } else {
        None
    }
}

fn keyword_token_len6(word: &[u8]) -> (r: Option<TokenType>)
    ensures
        r == keyword_kind_len6(word@),
{
    if eq6(word, 'A' as u8, 'C' as u8, 'T' as u8, 'I' as u8, 'O' as u8, 'N' as u8) {  // ACTION
        Some(TokenType::TK_ACTION)
    } else if eq6(word, 'A' as u8, 'T' as u8, 'T' as u8, 'A' as u8, 'C' as u8, 'H' as u8) {  // ATTACH
        Some(TokenType::TK_ATTACH)
    } else if eq6(word, 'B' as u8, 'E' as u8, 'F' as u8, 'O' as u8, 'R' as u8, 'E' as u8) {  // BEFORE
        Some(TokenType::TK_BEFORE)
    } else if eq6(word, 'C' as u8, 'O' as u8, 'L' as u8, 'U' as u8, 'M' as u8, 'N' as u8) {  // COLUMN
        Some(TokenType::TK_COLUMNKW)
    } else if eq6(word, 'C' as u8, 'O' as u8, 'M' as u8, 'M' as u8, 'I' as u8, 'T' as u8) {  // COMMIT
        Some(TokenType::TK_COMMIT)
    } else if eq6(word, 'C' as u8, 'R' as u8, 'E' as u8, 'A' as u8, 'T' as u8, 'E' as u8) {  // CREATE
        Some(TokenType::TK_CREATE)
    } else if eq6(word, 'D' as u8, 'E' as u8, 'L' as u8, 'E' as u8, 'T' as u8, 'E' as u8) {  // DELETE
        Some(TokenType::TK_DELETE)
    } else if eq6(word, 'D' as u8, 'E' as u8, 'T' as u8, 'A' as u8, 'C' as u8, 'H' as u8) {  // DETACH
        Some(TokenType::TK_DETACH)
    } else if eq6(word, 'E' as u8, 'S' as u8, 'C' as u8, 'A' as u8, 'P' as u8, 'E' as u8) {  // ESCAPE
        Some(TokenType::TK_ESCAPE)
    } else if eq6(word, 'E' as u8, 'X' as u8, 'C' as u8, 'E' as u8, 'P' as u8, 'T' as u8) {  // EXCEPT
        Some(TokenType::TK_EXCEPT)
    } else if eq6(word, 'E' as u8, 'X' as u8, 'I' as u8, 'S' as u8, 'T' as u8, 'S' as u8) {  // EXISTS
        Some(TokenType::TK_EXISTS)
    } else if eq6(word, 'F' as u8, 'I' as u8, 'L' as u8, 'T' as u8, 'E' as u8, 'R' as u8) {  // FILTER
        Some(TokenType::TK_FILTER)
    } else if eq6(word, 'H' as u8, 'A' as u8, 'V' as u8, 'I' as u8, 'N' as u8, 'G' as u8) {  // HAVING
        Some(TokenType::TK_HAVING)
    } else if eq6(word, 'I' as u8, 'G' as u8, 'N' as u8, 'O' as u8, 'R' as u8, 'E' as u8) {  // IGNORE
        Some(TokenType::TK_IGNORE)
    } else if eq6(word, 'I' as u8, 'N' as u8, 'S' as u8, 'E' as u8, 'R' as u8, 'T' as u8) {  // INSERT
        Some(TokenType::TK_INSERT)
    } else if eq6(word, 'I' as u8, 'S' as u8, 'N' as u8, 'U' as u8, 'L' as u8, 'L' as u8) {  // ISNULL
        Some(TokenType::TK_ISNULL)
    } else if eq6(word, 'O' as u8, 'F' as u8, 'F' as u8, 'S' as u8, 'E' as u8, 'T' as u8) {  // OFFSET
        Some(TokenType::TK_OFFSET)
    } else if eq6(word, 'P' as u8, 'R' as u8, 'A' as u8, 'G' as u8, 'M' as u8, 'A' as u8) {  // PRAGMA
        Some(TokenType::TK_PRAGMA)
    } else if eq6(word, 'R' as u8, 'E' as u8, 'G' as u8, 'E' as u8, 'X' as u8, 'P' as u8) {  // REGEXP
        Some(TokenType::TK_LIKE_KW)
    } else if eq6(word, 'R' as u8, 'E' as u8, 'N' as u8, 'A' as u8, 'M' as u8, 'E' as u8) {  // RENAME
        Some(TokenType::TK_RENAME)
    } else if eq6(word, 'S' as u8, 'E' as u8, 'L' as u8, 'E' as u8, 'C' as u8, 'T' as u8) {  // SELECT
        Some(TokenType::TK_SELECT)
    } else if eq6(word, 'U' as u8, 'N' as u8, 'I' as u8, 'Q' as u8, 'U' as u8, 'E' as u8) {  // UNIQUE
        Some(TokenType::TK_UNIQUE)
    } else if eq6(word, 'U' as u8, 'P' as u8, 'D' as u8, 'A' as u8, 'T' as u8, 'E' as u8) {  // UPDATE
        Some(TokenType::TK_UPDATE)
    } else if eq6(word, 'V' as u8, 'A' as u8, 'C' as u8, 'U' as u8, 'U' as u8, 'M' as u8) {  // VACUUM
        Some(TokenType::TK_VACUUM)
    } else if eq6(word, 'V' as u8, 'A' as u8, 'L' as u8, 'U' as u8, 'E' as u8, 'S' as u8) {  // VALUES
        Some(TokenType::TK_VALUES)
    } else if eq6(word, 'W' as u8, 'I' as u8, 'N' as u8, 'D' as u8, 'O' as u8, 'W' as u8) {  // WINDOW
        Some(TokenType::TK_WINDOW)
    } else {
        None
    }
}

fn keyword_token_len7(word: &[u8]) -> (r: Option<TokenType>)
    ensures
        r == keyword_kind_len7(word@),
{
    if eq7(word, 'A' as u8, 'N' as u8, 'A' as u8, 'L' as u8, 'Y' as u8, 'Z' as u8, 'E' as u8) {  // ANALYZE
        Some(TokenType::TK_ANALYZE)
    } else if eq7(word, 'B' as u8, 'E' as u8, 'T' as u8, 'W' as u8, 'E' as u8, 'E' as u8, 'N' as u8) {  // BETWEEN
        Some(TokenType::TK_BETWEEN)
    } else if eq7(word, 'C' as u8, 'A' as u8, 'S' as u8, 'C' as u8, 'A' as u8, 'D' as u8, 'E' as u8) {  // CASCADE
        Some(TokenType::TK_CASCADE)
    } else if eq7(word, 'C' as u8, 'O' as u8, 'L' as u8, 'L' as u8, 'A' as u8, 'T' as u8, 'E' as u8) {  // COLLATE
        Some(TokenType::TK_COLLATE)
    } else if eq7(word, 'C' as u8, 'U' as u8, 'R' as u8, 'R' as u8, 'E' as u8, 'N' as u8, 'T' as u8) {  // CURRENT
        Some(TokenType::TK_CURRENT)
    } else if eq7(word, 'D' as u8, 'E' as u8, 'F' as u8, 'A' as u8, 'U' as u8, 'L' as u8, 'T' as u8) {  // DEFAULT
        Some(TokenType::TK_DEFAULT)
    } else if eq7(word, 'E' as u8, 'X' as u8, 'P' as u8, 'L' as u8, 'A' as u8, 'I' as u8, 'N' as u8) {  // EXPLAIN
        Some(TokenType::TK_EXPLAIN)
    } else if eq7(word, 'F' as u8, 'O' as u8, 'R' as u8, 'E' as u8, 'I' as u8, 'G' as u8, 'N' as u8) {  // FOREIGN
        Some(TokenType::TK_FOREIGN)
    } else if eq7(word, 'I' as u8, 'N' as u8, 'D' as u8, 'E' as u8, 'X' as u8, 'E' as u8, 'D' as u8) {  // INDEXED
        Some(TokenType::TK_INDEXED)
    } else if eq7(word, 'I' as u8, 'N' as u8, 'S' as u8, 'T' as u8, 'E' as u8, 'A' as u8, 'D' as u8) {  // INSTEAD
        Some(TokenType::TK_INSTEAD)
    } else if eq7(word, 'N' as u8, 'A' as u8, 'T' as u8, 'U' as u8, 'R' as u8, 'A' as u8, 'L' as u8) {  // NATURAL
        Some(TokenType::TK_JOIN_KW)
    } else if eq7(word, 'N' as u8, 'O' as u8, 'T' as u8, 'H' as u8, 'I' as u8, 'N' as u8, 'G' as u8) {  // NOTHING
        Some(TokenType::TK_NOTHING)
    } else if eq7(word, 'N' as u8, 'O' as u8, 'T' as u8, 'N' as u8, 'U' as u8, 'L' as u8, 'L' as u8) {  // NOTNULL
        Some(TokenType::TK_NOTNULL)
    } else if eq7(word, 'P' as u8, 'R' as u8, 'I' as u8, 'M' as u8, 'A' as u8, 'R' as u8, 'Y' as u8) {  // PRIMARY
        Some(TokenType::TK_PRIMARY)
    } else if eq7(word, 'R' as u8, 'E' as u8, 'I' as u8, 'N' as u8, 'D' as u8, 'E' as u8, 'X' as u8) {  // REINDEX
        Some(TokenType::TK_REINDEX)
    } else if eq7(word, 'R' as u8, 'E' as u8, 'L' as u8, 'E' as u8, 'A' as u8, 'S' as u8, 'E' as u8) {  // RELEASE
        Some(TokenType::TK_RELEASE)
    } else if eq7(word, 'R' as u8, 'E' as u8, 'P' as u8, 'L' as u8, 'A' as u8, 'C' as u8, 'E' as u8) {  // REPLACE
        Some(TokenType::TK_REPLACE)
    } else if eq7(word, 'T' as u8, 'R' as u8, 'I' as u8, 'G' as u8, 'G' as u8, 'E' as u8, 'R' as u8) {  // TRIGGER
        Some(TokenType::TK_TRIGGER)
    } else if eq7(word, 'V' as u8, 'I' as u8, 'R' as u8, 'T' as u8, 'U' as u8, 'A' as u8, 'L' as u8) {  // VIRTUAL
        Some(TokenType::TK_VIRTUAL)
    } else if eq7(word, 'W' as u8, 'I' as u8, 'T' as u8, 'H' as u8, 'O' as u8, 'U' as u8, 'T' as u8) {  // WITHOUT
        Some(TokenType::TK_WITHOUT)
    } else {
        None
    }
}

fn keyword_token_len8(word: &[u8]) -> (r: Option<TokenType>)
    ensures
        r == keyword_kind_len8(word@),
{
    if eq8(word, 'C' as u8, 'O' as u8, 'N' as u8, 'F' as u8, 'L' as u8, 'I' as u8, 'C' as u8, 'T' as u8) {  // CONFLICT
        Some(TokenType::TK_CONFLICT)
    } else if eq8(word, 'D' as u8, 'A' as u8, 'T' as u8, 'A' as u8, 'B' as u8, 'A' as u8, 'S' as u8, 'E' as u8) {  // DATABASE
        Some(TokenType::TK_DATABASE)
    } else if eq8(word, 'D' as u8, 'E' as u8, 'F' as u8, 'E' as u8, 'R' as u8, 'R' as u8, 'E' as u8, 'D' as u8) {  // DEFERRED
        Some(TokenType::TK_DEFERRED)
    } else if eq8(word, 'D' as u8, 'I' as u8, 'S' as u8, 'T' as u8, 'I' as u8, 'N' as u8, 'C' as u8, 'T' as u8) {  // DISTINCT
        Some(TokenType::TK_DISTINCT)
    } else if eq8(word, 'R' as u8, 'E' as u8, 'S' as u8, 'T' as u8, 'R' as u8, 'I' as u8, 'C' as u8, 'T' as u8) {  // RESTRICT
        Some(TokenType::TK_RESTRICT)
    } else if eq8(word, 'R' as u8, 'O' as u8, 'L' as u8, 'L' as u8, 'B' as u8, 'A' as u8, 'C' as u8, 'K' as u8) {  // ROLLBACK
        Some(TokenType::TK_ROLLBACK)
    } else {
        None
    }
}

fn keyword_token_len9(word: &[u8]) -> (r: Option<TokenType>)
    ensures
        r == keyword_kind_len9(word@),
{
    if eq9(word, 'E' as u8, 'X' as u8, 'C' as u8, 'L' as u8, 'U' as u8, 'S' as u8, 'I' as u8, 'V' as u8, 'E' as u8) {  // EXCLUSIVE
        Some(TokenType::TK_EXCLUSIVE)
    } else if eq9(word, 'F' as u8, 'O' as u8, 'L' as u8, 'L' as u8, 'O' as u8, 'W' as u8, 'I' as u8, 'N' as u8, 'G' as u8) {  // FOLLOWING
        Some(TokenType::TK_FOLLOWING)
    } else if eq9(word, 'I' as u8, 'M' as u8, 'M' as u8, 'E' as u8, 'D' as u8, 'I' as u8, 'A' as u8, 'T' as u8, 'E' as u8) {  // IMMEDIATE
        Some(TokenType::TK_IMMEDIATE)
    } else if eq9(word, 'I' as u8, 'N' as u8, 'I' as u8, 'T' as u8, 'I' as u8, 'A' as u8, 'L' as u8, 'L' as u8, 'Y' as u8) {  // INITIALLY
        Some(TokenType::TK_INITIALLY)
    } else if eq9(word, 'I' as u8, 'N' as u8, 'T' as u8, 'E' as u8, 'R' as u8, 'S' as u8, 'E' as u8, 'C' as u8, 'T' as u8) {  // INTERSECT
        Some(TokenType::TK_INTERSECT)
    } else if eq9(word, 'P' as u8, 'A' as u8, 'R' as u8, 'T' as u8, 'I' as u8, 'T' as u8, 'I' as u8, 'O' as u8, 'N' as u8) {  // PARTITION
        Some(TokenType::TK_PARTITION)
    } else if eq9(word, 'P' as u8, 'R' as u8, 'E' as u8, 'C' as u8, 'E' as u8, 'D' as u8, 'I' as u8, 'N' as u8, 'G' as u8) {  // PRECEDING
        Some(TokenType::TK_PRECEDING)
    } else if eq9(word, 'R' as u8, 'E' as u8, 'C' as u8, 'U' as u8, 'R' as u8, 'S' as u8, 'I' as u8, 'V' as u8, 'E' as u8) {  // RECURSIVE
        Some(TokenType::TK_RECURSIVE)
    } else if eq9(word, 'S' as u8, 'A' as u8, 'V' as u8, 'E' as u8, 'P' as u8, 'O' as u8, 'I' as u8, 'N' as u8, 'T' as u8) {  // SAVEPOINT
        Some(TokenType::TK_SAVEPOINT)
    } else if eq9(word, 'T' as u8, 'E' as u8, 'M' as u8, 'P' as u8, 'O' as u8, 'R' as u8, 'A' as u8, 'R' as u8, 'Y' as u8) {  // TEMPORARY
        Some(TokenType::TK_TEMP)
    } else if eq9(word, 'U' as u8, 'N' as u8, 'B' as u8, 'O' as u8, 'U' as u8, 'N' as u8, 'D' as u8, 'E' as u8, 'D' as u8) {  // UNBOUNDED
        Some(TokenType::TK_UNBOUNDED)
    } else {
        None
    }
}

fn keyword_token_len10(word: &[u8]) -> (r: Option<TokenType>)
    ensures
        r == keyword_kind_len10(word@),
{
    if eq10(word, 'C' as u8, 'O' as u8, 'N' as u8, 'S' as u8, 'T' as u8, 'R' as u8, 'A' as u8, 'I' as u8, 'N' as u8, 'T' as u8) {  // CONSTRAINT
        Some(TokenType::TK_CONSTRAINT)
    } else if eq10(word, 'D' as u8, 'E' as u8, 'F' as u8, 'E' as u8, 'R' as u8, 'R' as u8, 'A' as u8, 'B' as u8, 'L' as u8, 'E' as u8) {  // DEFERRABLE
        Some(TokenType::TK_DEFERRABLE)
    } else if eq10(word, 'R' as u8, 'E' as u8, 'F' as u8, 'E' as u8, 'R' as u8, 'E' as u8, 'N' as u8, 'C' as u8, 'E' as u8, 'S' as u8) {  // REFERENCES
        Some(TokenType::TK_REFERENCES)
    } else {
        None
    }
}

fn keyword_token_len11(word: &[u8]) -> (r: Option<TokenType>)
    ensures
        r == keyword_kind_len11(word@),
{
    if eq11(word, 'T' as u8, 'R' as u8, 'A' as u8, 'N' as u8, 'S' as u8, 'A' as u8, 'C' as u8, 'T' as u8, 'I' as u8, 'O' as u8, 'N' as u8) {  // TRANSACTION
        Some(TokenType::TK_TRANSACTION)
    } else {
        None
    }
}

fn keyword_token_len12(word: &[u8]) -> (r: Option<TokenType>)
    ensures
        r == keyword_kind_len12(word@),
{
    if eq12(word, 'C' as u8, 'U' as u8, 'R' as u8, 'R' as u8, 'E' as u8, 'N' as u8, 'T' as u8, '_' as u8, 'D' as u8, 'A' as u8, 'T' as u8, 'E' as u8) {  // CURRENT_DATE
        Some(TokenType::TK_CTIME_KW)
    } else if eq12(word, 'C' as u8, 'U' as u8, 'R' as u8, 'R' as u8, 'E' as u8, 'N' as u8, 'T' as u8, '_' as u8, 'T' as u8, 'I' as u8, 'M' as u8, 'E' as u8) {  // CURRENT_TIME
        Some(TokenType::TK_CTIME_KW)
    } else {
        None
    }
}

fn keyword_token_len13(word: &[u8]) -> (r: Option<TokenType>)
    ensures
        r == keyword_kind_len13(word@),
{
    if eq13(word, 'A' as u8, 'U' as u8, 'T' as u8, 'O' as u8, 'I' as u8, 'N' as u8, 'C' as u8, 'R' as u8, 'E' as u8, 'M' as u8, 'E' as u8, 'N' as u8, 'T' as u8) {  // AUTOINCREMENT
        Some(TokenType::TK_AUTOINCR)
    } else {
        None
    }
}

fn keyword_token_len17(word: &[u8]) -> (r: Option<TokenType>)
    ensures
        r == keyword_kind_len17(word@),
{
    if eq17(word, 'C' as u8, 'U' as u8, 'R' as u8, 'R' as u8, 'E' as u8, 'N' as u8, 'T' as u8, '_' as u8, 'T' as u8, 'I' as u8, 'M' as u8, 'E' as u8, 'S' as u8, 'T' as u8, 'A' as u8, 'M' as u8, 'P' as u8) {  // CURRENT_TIMESTAMP
        Some(TokenType::TK_CTIME_KW)
    } else {
        None
    }
}

/// Classify an already-uppercased spelling: the terminal kind when `word`
/// is a keyword of the table, and `None` for any other byte string, which
/// the caller treats as an ordinary identifier.
pub fn keyword_token(word: &[u8]) -> (r: Option<TokenType>)
    ensures
        r == keyword_kind_of(word@),
{
    let n: usize = word.len();
    if n == 2 {
        keyword_token_len2(word)
    } else if n == 3 {
        keyword_token_len3(word)
    } else if n == 4 {
        keyword_token_len4(word)
    } else if n == 5 {
        keyword_token_len5(word)
    } else if n == 6 {
        keyword_token_len6(word)
    } else if n == 7 {
        keyword_token_len7(word)
    } else if n == 8 {
        keyword_token_len8(word)
    } else if n == 9 {
        keyword_token_len9(word)
    } else if n == 10 {
        keyword_token_len10(word)
    } else if n == 11 {
        keyword_token_len11(word)
    } else if n == 12 {
        keyword_token_len12(word)
    } else if n == 13 {
        keyword_token_len13(word)
    } else if n == 17 {
        keyword_token_len17(word)
    } else {
        None
    }
}

} // verus!
