//! The laws that tie the table, the materializer and the reconstructor together.
use vstd::prelude::*;

use crate::keywords::MAX_KEYWORD_LEN;
use crate::keywords::ascii_bytes;
use crate::keywords::keyword_kind_len2;
use crate::keywords::keyword_kind_len3;
use crate::keywords::keyword_kind_len4;
use crate::keywords::keyword_kind_len5;
use crate::keywords::keyword_kind_len6;
use crate::keywords::keyword_kind_len7;
use crate::keywords::keyword_kind_len8;
use crate::keywords::keyword_kind_len9;
use crate::keywords::keyword_kind_len10;
use crate::keywords::keyword_kind_len11;
use crate::keywords::keyword_kind_len12;
use crate::keywords::keyword_kind_len13;
use crate::keywords::keyword_kind_len17;
use crate::keywords::keyword_kind_of;
use crate::materialize::has_payload;
use crate::reconstruct::canonical_spelling;
use crate::reconstruct::kind_of_code;
use crate::token::TokenType;
use crate::token::token_code;

verus! {

/// Complementarity: a kind is materialized without a payload exactly when the
/// reverse table holds a canonical spelling for it.
pub proof fn lemma_payload_reverse_complementary(k: TokenType)
    ensures
        has_payload(k) <==> canonical_spelling(k) is None,
{
}

/// Numeric codes are faithful: looking a kind's own code back up finds the kind.
#[verifier::rlimit(100)]
pub proof fn lemma_code_identity(k: TokenType)
    ensures
        kind_of_code(token_code(k)) == Some(k),
{
}

/// Round trip: re-classifying the canonical spelling of any kind of the
/// reverse table yields that same kind.
pub proof fn lemma_reverse_round_trip(k: TokenType)
    ensures
        canonical_spelling(k) matches Some(s) ==> keyword_kind_of(ascii_bytes(s)) == Some(k),
{
    match k {
        TokenType::TK_ABORT => {
            assert(ascii_bytes(canonical_spelling(k).unwrap()) =~= seq!['A' as u8, 'B' as u8, 'O' as u8, 'R' as u8, 'T' as u8]);
        },
        TokenType::TK_ACTION => {
            assert(ascii_bytes(canonical_spelling(k).unwrap()) =~= seq!['A' as u8, 'C' as u8, 'T' as u8, 'I' as u8, 'O' as u8, 'N' as u8]);
        },
        TokenType::TK_ADD => {
            assert(ascii_bytes(canonical_spelling(k).unwrap()) =~= seq!['A' as u8, 'D' as u8, 'D' as u8]);
        },
        TokenType::TK_AFTER => {
            assert(ascii_bytes(canonical_spelling(k).unwrap()) =~= seq!['A' as u8, 'F' as u8, 'T' as u8, 'E' as u8, 'R' as u8]);
        },
        TokenType::TK_ALL => {
            assert(ascii_bytes(canonical_spelling(k).unwrap()) =~= seq!['A' as u8, 'L' as u8, 'L' as u8]);
        },
        TokenType::TK_ALTER => {
            assert(ascii_bytes(canonical_spelling(k).unwrap()) =~= seq!['A' as u8, 'L' as u8, 'T' as u8, 'E' as u8, 'R' as u8]);
        },
        TokenType::TK_ANALYZE => {
            assert(ascii_bytes(canonical_spelling(k).unwrap()) =~= seq!['A' as u8, 'N' as u8, 'A' as u8, 'L' as u8, 'Y' as u8, 'Z' as u8, 'E' as u8]);
        },
        TokenType::TK_AND => {
            assert(ascii_bytes(canonical_spelling(k).unwrap()) =~= seq!['A' as u8, 'N' as u8, 'D' as u8]);
        },
        TokenType::TK_AS => {
            assert(ascii_bytes(canonical_spelling(k).unwrap()) =~= seq!['A' as u8, 'S' as u8]);
        },
        TokenType::TK_ASC => {
            assert(ascii_bytes(canonical_spelling(k).unwrap()) =~= seq!['A' as u8, 'S' as u8, 'C' as u8]);
        },
        TokenType::TK_ATTACH => {
            assert(ascii_bytes(canonical_spelling(k).unwrap()) =~= seq!['A' as u8, 'T' as u8, 'T' as u8, 'A' as u8, 'C' as u8, 'H' as u8]);
        },
        TokenType::TK_AUTOINCR => {
            assert(ascii_bytes(canonical_spelling(k).unwrap()) =~= seq!['A' as u8, 'U' as u8, 'T' as u8, 'O' as u8, 'I' as u8, 'N' as u8, 'C' as u8, 'R' as u8, 'E' as u8, 'M' as u8, 'E' as u8, 'N' as u8, 'T' as u8]);
        },
        TokenType::TK_BEFORE => {
            assert(ascii_bytes(canonical_spelling(k).unwrap()) =~= seq!['B' as u8, 'E' as u8, 'F' as u8, 'O' as u8, 'R' as u8, 'E' as u8]);
        },
        TokenType::TK_BEGIN => {
            assert(ascii_bytes(canonical_spelling(k).unwrap()) =~= seq!['B' as u8, 'E' as u8, 'G' as u8, 'I' as u8, 'N' as u8]);
        },
        TokenType::TK_BETWEEN => {
            assert(ascii_bytes(canonical_spelling(k).unwrap()) =~= seq!['B' as u8, 'E' as u8, 'T' as u8, 'W' as u8, 'E' as u8, 'E' as u8, 'N' as u8]);
        },
        TokenType::TK_BY => {
            assert(ascii_bytes(canonical_spelling(k).unwrap()) =~= seq!['B' as u8, 'Y' as u8]);
        },
        TokenType::TK_CASCADE => {
            assert(ascii_bytes(canonical_spelling(k).unwrap()) =~= seq!['C' as u8, 'A' as u8, 'S' as u8, 'C' as u8, 'A' as u8, 'D' as u8, 'E' as u8]);
        },
        TokenType::TK_CASE => {
            assert(ascii_bytes(canonical_spelling(k).unwrap()) =~= seq!['C' as u8, 'A' as u8, 'S' as u8, 'E' as u8]);
        },
        TokenType::TK_CAST => {
            assert(ascii_bytes(canonical_spelling(k).unwrap()) =~= seq!['C' as u8, 'A' as u8, 'S' as u8, 'T' as u8]);
        },
        TokenType::TK_CHECK => {
            assert(ascii_bytes(canonical_spelling(k).unwrap()) =~= seq!['C' as u8, 'H' as u8, 'E' as u8, 'C' as u8, 'K' as u8]);
        },
        TokenType::TK_COLLATE => {
            assert(ascii_bytes(canonical_spelling(k).unwrap()) =~= seq!['C' as u8, 'O' as u8, 'L' as u8, 'L' as u8, 'A' as u8, 'T' as u8, 'E' as u8]);
        },
        TokenType::TK_COLUMNKW => {
            assert(ascii_bytes(canonical_spelling(k).unwrap()) =~= seq!['C' as u8, 'O' as u8, 'L' as u8, 'U' as u8, 'M' as u8, 'N' as u8]);
        },
        TokenType::TK_COMMIT => {
            assert(ascii_bytes(canonical_spelling(k).unwrap()) =~= seq!['C' as u8, 'O' as u8, 'M' as u8, 'M' as u8, 'I' as u8, 'T' as u8]);
        },
        TokenType::TK_CONFLICT => {
            assert(ascii_bytes(canonical_spelling(k).unwrap()) =~= seq!['C' as u8, 'O' as u8, 'N' as u8, 'F' as u8, 'L' as u8, 'I' as u8, 'C' as u8, 'T' as u8]);
        },
        TokenType::TK_CONSTRAINT => {
            assert(ascii_bytes(canonical_spelling(k).unwrap()) =~= seq!['C' as u8, 'O' as u8, 'N' as u8, 'S' as u8, 'T' as u8, 'R' as u8, 'A' as u8, 'I' as u8, 'N' as u8, 'T' as u8]);
        },
        TokenType::TK_CREATE => {
            assert(ascii_bytes(canonical_spelling(k).unwrap()) =~= seq!['C' as u8, 'R' as u8, 'E' as u8, 'A' as u8, 'T' as u8, 'E' as u8]);
        },
        TokenType::TK_CURRENT => {
            assert(ascii_bytes(canonical_spelling(k).unwrap()) =~= seq!['C' as u8, 'U' as u8, 'R' as u8, 'R' as u8, 'E' as u8, 'N' as u8, 'T' as u8]);
        },
        TokenType::TK_DATABASE => {
            assert(ascii_bytes(canonical_spelling(k).unwrap()) =~= seq!['D' as u8, 'A' as u8, 'T' as u8, 'A' as u8, 'B' as u8, 'A' as u8, 'S' as u8, 'E' as u8]);
        },
        TokenType::TK_DEFAULT => {
            assert(ascii_bytes(canonical_spelling(k).unwrap()) =~= seq!['D' as u8, 'E' as u8, 'F' as u8, 'A' as u8, 'U' as u8, 'L' as u8, 'T' as u8]);
        },
        TokenType::TK_DEFERRABLE => {
            assert(ascii_bytes(canonical_spelling(k).unwrap()) =~= seq!['D' as u8, 'E' as u8, 'F' as u8, 'E' as u8, 'R' as u8, 'R' as u8, 'A' as u8, 'B' as u8, 'L' as u8, 'E' as u8]);
        },
        TokenType::TK_DEFERRED => {
            assert(ascii_bytes(canonical_spelling(k).unwrap()) =~= seq!['D' as u8, 'E' as u8, 'F' as u8, 'E' as u8, 'R' as u8, 'R' as u8, 'E' as u8, 'D' as u8]);
        },
        TokenType::TK_DELETE => {
            assert(ascii_bytes(canonical_spelling(k).unwrap()) =~= seq!['D' as u8, 'E' as u8, 'L' as u8, 'E' as u8, 'T' as u8, 'E' as u8]);
        },
        TokenType::TK_DESC => {
            assert(ascii_bytes(canonical_spelling(k).unwrap()) =~= seq!['D' as u8, 'E' as u8, 'S' as u8, 'C' as u8]);
        },
        TokenType::TK_DETACH => {
            assert(ascii_bytes(canonical_spelling(k).unwrap()) =~= seq!['D' as u8, 'E' as u8, 'T' as u8, 'A' as u8, 'C' as u8, 'H' as u8]);
        },
        TokenType::TK_DISTINCT => {
            assert(ascii_bytes(canonical_spelling(k).unwrap()) =~= seq!['D' as u8, 'I' as u8, 'S' as u8, 'T' as u8, 'I' as u8, 'N' as u8, 'C' as u8, 'T' as u8]);
        },
        TokenType::TK_DO => {
            assert(ascii_bytes(canonical_spelling(k).unwrap()) =~= seq!['D' as u8, 'O' as u8]);
        },
        TokenType::TK_DROP => {
            assert(ascii_bytes(canonical_spelling(k).unwrap()) =~= seq!['D' as u8, 'R' as u8, 'O' as u8, 'P' as u8]);
        },
        TokenType::TK_EACH => {
            assert(ascii_bytes(canonical_spelling(k).unwrap()) =~= seq!['E' as u8, 'A' as u8, 'C' as u8, 'H' as u8]);
        },
        TokenType::TK_ELSE => {
            assert(ascii_bytes(canonical_spelling(k).unwrap()) =~= seq!['E' as u8, 'L' as u8, 'S' as u8, 'E' as u8]);
        },
        TokenType::TK_END => {
            assert(ascii_bytes(canonical_spelling(k).unwrap()) =~= seq!['E' as u8, 'N' as u8, 'D' as u8]);
        },
        TokenType::TK_ESCAPE => {
            assert(ascii_bytes(canonical_spelling(k).unwrap()) =~= seq!['E' as u8, 'S' as u8, 'C' as u8, 'A' as u8, 'P' as u8, 'E' as u8]);
        },
        TokenType::TK_EXCEPT => {
            assert(ascii_bytes(canonical_spelling(k).unwrap()) =~= seq!['E' as u8, 'X' as u8, 'C' as u8, 'E' as u8, 'P' as u8, 'T' as u8]);
        },
        TokenType::TK_EXCLUSIVE => {
            assert(ascii_bytes(canonical_spelling(k).unwrap()) =~= seq!['E' as u8, 'X' as u8, 'C' as u8, 'L' as u8, 'U' as u8, 'S' as u8, 'I' as u8, 'V' as u8, 'E' as u8]);
        },
        TokenType::TK_EXISTS => {
            assert(ascii_bytes(canonical_spelling(k).unwrap()) =~= seq!['E' as u8, 'X' as u8, 'I' as u8, 'S' as u8, 'T' as u8, 'S' as u8]);
        },
        TokenType::TK_EXPLAIN => {
            assert(ascii_bytes(canonical_spelling(k).unwrap()) =~= seq!['E' as u8, 'X' as u8, 'P' as u8, 'L' as u8, 'A' as u8, 'I' as u8, 'N' as u8]);
        },
        TokenType::TK_FAIL => {
            assert(ascii_bytes(canonical_spelling(k).unwrap()) =~= seq!['F' as u8, 'A' as u8, 'I' as u8, 'L' as u8]);
        },
        TokenType::TK_FILTER => {
            assert(ascii_bytes(canonical_spelling(k).unwrap()) =~= seq!['F' as u8, 'I' as u8, 'L' as u8, 'T' as u8, 'E' as u8, 'R' as u8]);
        },
        TokenType::TK_FOLLOWING => {
            assert(ascii_bytes(canonical_spelling(k).unwrap()) =~= seq!['F' as u8, 'O' as u8, 'L' as u8, 'L' as u8, 'O' as u8, 'W' as u8, 'I' as u8, 'N' as u8, 'G' as u8]);
        },
        TokenType::TK_FOR => {
            assert(ascii_bytes(canonical_spelling(k).unwrap()) =~= seq!['F' as u8, 'O' as u8, 'R' as u8]);
        },
        TokenType::TK_FOREIGN => {
            assert(ascii_bytes(canonical_spelling(k).unwrap()) =~= seq!['F' as u8, 'O' as u8, 'R' as u8, 'E' as u8, 'I' as u8, 'G' as u8, 'N' as u8]);
        },
        TokenType::TK_FROM => {
            assert(ascii_bytes(canonical_spelling(k).unwrap()) =~= seq!['F' as u8, 'R' as u8, 'O' as u8, 'M' as u8]);
        },
        TokenType::TK_GROUP => {
            assert(ascii_bytes(canonical_spelling(k).unwrap()) =~= seq!['G' as u8, 'R' as u8, 'O' as u8, 'U' as u8, 'P' as u8]);
        },
        TokenType::TK_HAVING => {
            assert(ascii_bytes(canonical_spelling(k).unwrap()) =~= seq!['H' as u8, 'A' as u8, 'V' as u8, 'I' as u8, 'N' as u8, 'G' as u8]);
        },
        TokenType::TK_IF => {
            assert(ascii_bytes(canonical_spelling(k).unwrap()) =~= seq!['I' as u8, 'F' as u8]);
        },
        TokenType::TK_IGNORE => {
            assert(ascii_bytes(canonical_spelling(k).unwrap()) =~= seq!['I' as u8, 'G' as u8, 'N' as u8, 'O' as u8, 'R' as u8, 'E' as u8]);
        },
        TokenType::TK_IMMEDIATE => {
            assert(ascii_bytes(canonical_spelling(k).unwrap()) =~= seq!['I' as u8, 'M' as u8, 'M' as u8, 'E' as u8, 'D' as u8, 'I' as u8, 'A' as u8, 'T' as u8, 'E' as u8]);
        },
        TokenType::TK_IN => {
            assert(ascii_bytes(canonical_spelling(k).unwrap()) =~= seq!['I' as u8, 'N' as u8]);
        },
        TokenType::TK_INDEX => {
            assert(ascii_bytes(canonical_spelling(k).unwrap()) =~= seq!['I' as u8, 'N' as u8, 'D' as u8, 'E' as u8, 'X' as u8]);
        },
        TokenType::TK_INDEXED => {
            assert(ascii_bytes(canonical_spelling(k).unwrap()) =~= seq!['I' as u8, 'N' as u8, 'D' as u8, 'E' as u8, 'X' as u8, 'E' as u8, 'D' as u8]);
        },
        TokenType::TK_INITIALLY => {
            assert(ascii_bytes(canonical_spelling(k).unwrap()) =~= seq!['I' as u8, 'N' as u8, 'I' as u8, 'T' as u8, 'I' as u8, 'A' as u8, 'L' as u8, 'L' as u8, 'Y' as u8]);
        },
        TokenType::TK_INSERT => {
            assert(ascii_bytes(canonical_spelling(k).unwrap()) =~= seq!['I' as u8, 'N' as u8, 'S' as u8, 'E' as u8, 'R' as u8, 'T' as u8]);
        },
        TokenType::TK_INSTEAD => {
            assert(ascii_bytes(canonical_spelling(k).unwrap()) =~= seq!['I' as u8, 'N' as u8, 'S' as u8, 'T' as u8, 'E' as u8, 'A' as u8, 'D' as u8]);
        },
        TokenType::TK_INTERSECT => {
            assert(ascii_bytes(canonical_spelling(k).unwrap()) =~= seq!['I' as u8, 'N' as u8, 'T' as u8, 'E' as u8, 'R' as u8, 'S' as u8, 'E' as u8, 'C' as u8, 'T' as u8]);
        },
        TokenType::TK_INTO => {
            assert(ascii_bytes(canonical_spelling(k).unwrap()) =~= seq!['I' as u8, 'N' as u8, 'T' as u8, 'O' as u8]);
        },
        TokenType::TK_IS => {
            assert(ascii_bytes(canonical_spelling(k).unwrap()) =~= seq!['I' as u8, 'S' as u8]);
        },
        TokenType::TK_ISNULL => {
            assert(ascii_bytes(canonical_spelling(k).unwrap()) =~= seq!['I' as u8, 'S' as u8, 'N' as u8, 'U' as u8, 'L' as u8, 'L' as u8]);
        },
        TokenType::TK_JOIN => {
            assert(ascii_bytes(canonical_spelling(k).unwrap()) =~= seq!['J' as u8, 'O' as u8, 'I' as u8, 'N' as u8]);
        },
        TokenType::TK_KEY => {
            assert(ascii_bytes(canonical_spelling(k).unwrap()) =~= seq!['K' as u8, 'E' as u8, 'Y' as u8]);
        },
        TokenType::TK_LIMIT => {
            assert(ascii_bytes(canonical_spelling(k).unwrap()) =~= seq!['L' as u8, 'I' as u8, 'M' as u8, 'I' as u8, 'T' as u8]);
        },
        TokenType::TK_NO => {
            assert(ascii_bytes(canonical_spelling(k).unwrap()) =~= seq!['N' as u8, 'O' as u8]);
        },
        TokenType::TK_NOT => {
            assert(ascii_bytes(canonical_spelling(k).unwrap()) =~= seq!['N' as u8, 'O' as u8, 'T' as u8]);
        },
        TokenType::TK_NOTHING => {
            assert(ascii_bytes(canonical_spelling(k).unwrap()) =~= seq!['N' as u8, 'O' as u8, 'T' as u8, 'H' as u8, 'I' as u8, 'N' as u8, 'G' as u8]);
        },
        TokenType::TK_NOTNULL => {
            assert(ascii_bytes(canonical_spelling(k).unwrap()) =~= seq!['N' as u8, 'O' as u8, 'T' as u8, 'N' as u8, 'U' as u8, 'L' as u8, 'L' as u8]);
        },
        TokenType::TK_NULL => {
            assert(ascii_bytes(canonical_spelling(k).unwrap()) =~= seq!['N' as u8, 'U' as u8, 'L' as u8, 'L' as u8]);
        },
        TokenType::TK_OF => {
            assert(ascii_bytes(canonical_spelling(k).unwrap()) =~= seq!['O' as u8, 'F' as u8]);
        },
        TokenType::TK_OFFSET => {
            assert(ascii_bytes(canonical_spelling(k).unwrap()) =~= seq!['O' as u8, 'F' as u8, 'F' as u8, 'S' as u8, 'E' as u8, 'T' as u8]);
        },
        TokenType::TK_ON => {
            assert(ascii_bytes(canonical_spelling(k).unwrap()) =~= seq!['O' as u8, 'N' as u8]);
        },
        TokenType::TK_OR => {
            assert(ascii_bytes(canonical_spelling(k).unwrap()) =~= seq!['O' as u8, 'R' as u8]);
        },
        TokenType::TK_ORDER => {
            assert(ascii_bytes(canonical_spelling(k).unwrap()) =~= seq!['O' as u8, 'R' as u8, 'D' as u8, 'E' as u8, 'R' as u8]);
        },
        TokenType::TK_OVER => {
            assert(ascii_bytes(canonical_spelling(k).unwrap()) =~= seq!['O' as u8, 'V' as u8, 'E' as u8, 'R' as u8]);
        },
        TokenType::TK_PARTITION => {
            assert(ascii_bytes(canonical_spelling(k).unwrap()) =~= seq!['P' as u8, 'A' as u8, 'R' as u8, 'T' as u8, 'I' as u8, 'T' as u8, 'I' as u8, 'O' as u8, 'N' as u8]);
        },
        TokenType::TK_PLAN => {
            assert(ascii_bytes(canonical_spelling(k).unwrap()) =~= seq!['P' as u8, 'L' as u8, 'A' as u8, 'N' as u8]);
        },
        TokenType::TK_PRAGMA => {
            assert(ascii_bytes(canonical_spelling(k).unwrap()) =~= seq!['P' as u8, 'R' as u8, 'A' as u8, 'G' as u8, 'M' as u8, 'A' as u8]);
        },
        TokenType::TK_PRECEDING => {
            assert(ascii_bytes(canonical_spelling(k).unwrap()) =~= seq!['P' as u8, 'R' as u8, 'E' as u8, 'C' as u8, 'E' as u8, 'D' as u8, 'I' as u8, 'N' as u8, 'G' as u8]);
        },
        TokenType::TK_PRIMARY => {
            assert(ascii_bytes(canonical_spelling(k).unwrap()) =~= seq!['P' as u8, 'R' as u8, 'I' as u8, 'M' as u8, 'A' as u8, 'R' as u8, 'Y' as u8]);
        },
        TokenType::TK_QUERY => {
            assert(ascii_bytes(canonical_spelling(k).unwrap()) =~= seq!['Q' as u8, 'U' as u8, 'E' as u8, 'R' as u8, 'Y' as u8]);
        },
        TokenType::TK_RAISE => {
            assert(ascii_bytes(canonical_spelling(k).unwrap()) =~= seq!['R' as u8, 'A' as u8, 'I' as u8, 'S' as u8, 'E' as u8]);
        },
        TokenType::TK_RANGE => {
            assert(ascii_bytes(canonical_spelling(k).unwrap()) =~= seq!['R' as u8, 'A' as u8, 'N' as u8, 'G' as u8, 'E' as u8]);
        },
        TokenType::TK_RECURSIVE => {
            assert(ascii_bytes(canonical_spelling(k).unwrap()) =~= seq!['R' as u8, 'E' as u8, 'C' as u8, 'U' as u8, 'R' as u8, 'S' as u8, 'I' as u8, 'V' as u8, 'E' as u8]);
        },
        TokenType::TK_REFERENCES => {
            assert(ascii_bytes(canonical_spelling(k).unwrap()) =~= seq!['R' as u8, 'E' as u8, 'F' as u8, 'E' as u8, 'R' as u8, 'E' as u8, 'N' as u8, 'C' as u8, 'E' as u8, 'S' as u8]);
        },
        TokenType::TK_REINDEX => {
            assert(ascii_bytes(canonical_spelling(k).unwrap()) =~= seq!['R' as u8, 'E' as u8, 'I' as u8, 'N' as u8, 'D' as u8, 'E' as u8, 'X' as u8]);
        },
        TokenType::TK_RELEASE => {
            assert(ascii_bytes(canonical_spelling(k).unwrap()) =~= seq!['R' as u8, 'E' as u8, 'L' as u8, 'E' as u8, 'A' as u8, 'S' as u8, 'E' as u8]);
        },
        TokenType::TK_RENAME => {
            assert(ascii_bytes(canonical_spelling(k).unwrap()) =~= seq!['R' as u8, 'E' as u8, 'N' as u8, 'A' as u8, 'M' as u8, 'E' as u8]);
        },
        TokenType::TK_REPLACE => {
            assert(ascii_bytes(canonical_spelling(k).unwrap()) =~= seq!['R' as u8, 'E' as u8, 'P' as u8, 'L' as u8, 'A' as u8, 'C' as u8, 'E' as u8]);
        },
        TokenType::TK_RESTRICT => {
            assert(ascii_bytes(canonical_spelling(k).unwrap()) =~= seq!['R' as u8, 'E' as u8, 'S' as u8, 'T' as u8, 'R' as u8, 'I' as u8, 'C' as u8, 'T' as u8]);
        },
        TokenType::TK_ROLLBACK => {
            assert(ascii_bytes(canonical_spelling(k).unwrap()) =~= seq!['R' as u8, 'O' as u8, 'L' as u8, 'L' as u8, 'B' as u8, 'A' as u8, 'C' as u8, 'K' as u8]);
        },
        TokenType::TK_ROW => {
            assert(ascii_bytes(canonical_spelling(k).unwrap()) =~= seq!['R' as u8, 'O' as u8, 'W' as u8]);
        },
        TokenType::TK_ROWS => {
            assert(ascii_bytes(canonical_spelling(k).unwrap()) =~= seq!['R' as u8, 'O' as u8, 'W' as u8, 'S' as u8]);
        },
        TokenType::TK_SAVEPOINT => {
            assert(ascii_bytes(canonical_spelling(k).unwrap()) =~= seq!['S' as u8, 'A' as u8, 'V' as u8, 'E' as u8, 'P' as u8, 'O' as u8, 'I' as u8, 'N' as u8, 'T' as u8]);
        },
        TokenType::TK_SELECT => {
            assert(ascii_bytes(canonical_spelling(k).unwrap()) =~= seq!['S' as u8, 'E' as u8, 'L' as u8, 'E' as u8, 'C' as u8, 'T' as u8]);
        },
        TokenType::TK_SET => {
            assert(ascii_bytes(canonical_spelling(k).unwrap()) =~= seq!['S' as u8, 'E' as u8, 'T' as u8]);
        },
        TokenType::TK_TABLE => {
            assert(ascii_bytes(canonical_spelling(k).unwrap()) =~= seq!['T' as u8, 'A' as u8, 'B' as u8, 'L' as u8, 'E' as u8]);
        },
        TokenType::TK_TEMP => {
            assert(ascii_bytes(canonical_spelling(k).unwrap()) =~= seq!['T' as u8, 'E' as u8, 'M' as u8, 'P' as u8]);
        },
        TokenType::TK_THEN => {
            assert(ascii_bytes(canonical_spelling(k).unwrap()) =~= seq!['T' as u8, 'H' as u8, 'E' as u8, 'N' as u8]);
        },
        TokenType::TK_TO => {
            assert(ascii_bytes(canonical_spelling(k).unwrap()) =~= seq!['T' as u8, 'O' as u8]);
        },
        TokenType::TK_TRANSACTION => {
            assert(ascii_bytes(canonical_spelling(k).unwrap()) =~= seq!['T' as u8, 'R' as u8, 'A' as u8, 'N' as u8, 'S' as u8, 'A' as u8, 'C' as u8, 'T' as u8, 'I' as u8, 'O' as u8, 'N' as u8]);
        },
        TokenType::TK_TRIGGER => {
            assert(ascii_bytes(canonical_spelling(k).unwrap()) =~= seq!['T' as u8, 'R' as u8, 'I' as u8, 'G' as u8, 'G' as u8, 'E' as u8, 'R' as u8]);
        },
        TokenType::TK_UNBOUNDED => {
            assert(ascii_bytes(canonical_spelling(k).unwrap()) =~= seq!['U' as u8, 'N' as u8, 'B' as u8, 'O' as u8, 'U' as u8, 'N' as u8, 'D' as u8, 'E' as u8, 'D' as u8]);
        },
        TokenType::TK_UNION => {
            assert(ascii_bytes(canonical_spelling(k).unwrap()) =~= seq!['U' as u8, 'N' as u8, 'I' as u8, 'O' as u8, 'N' as u8]);
        },
        TokenType::TK_UNIQUE => {
            assert(ascii_bytes(canonical_spelling(k).unwrap()) =~= seq!['U' as u8, 'N' as u8, 'I' as u8, 'Q' as u8, 'U' as u8, 'E' as u8]);
        },
        TokenType::TK_UPDATE => {
            assert(ascii_bytes(canonical_spelling(k).unwrap()) =~= seq!['U' as u8, 'P' as u8, 'D' as u8, 'A' as u8, 'T' as u8, 'E' as u8]);
        },
        TokenType::TK_USING => {
            assert(ascii_bytes(canonical_spelling(k).unwrap()) =~= seq!['U' as u8, 'S' as u8, 'I' as u8, 'N' as u8, 'G' as u8]);
        },
        TokenType::TK_VACUUM => {
            assert(ascii_bytes(canonical_spelling(k).unwrap()) =~= seq!['V' as u8, 'A' as u8, 'C' as u8, 'U' as u8, 'U' as u8, 'M' as u8]);
        },
        TokenType::TK_VALUES => {
            assert(ascii_bytes(canonical_spelling(k).unwrap()) =~= seq!['V' as u8, 'A' as u8, 'L' as u8, 'U' as u8, 'E' as u8, 'S' as u8]);
        },
        TokenType::TK_VIEW => {
            assert(ascii_bytes(canonical_spelling(k).unwrap()) =~= seq!['V' as u8, 'I' as u8, 'E' as u8, 'W' as u8]);
        },
        TokenType::TK_VIRTUAL => {
            assert(ascii_bytes(canonical_spelling(k).unwrap()) =~= seq!['V' as u8, 'I' as u8, 'R' as u8, 'T' as u8, 'U' as u8, 'A' as u8, 'L' as u8]);
        },
        TokenType::TK_WHEN => {
            assert(ascii_bytes(canonical_spelling(k).unwrap()) =~= seq!['W' as u8, 'H' as u8, 'E' as u8, 'N' as u8]);
        },
        TokenType::TK_WHERE => {
            assert(ascii_bytes(canonical_spelling(k).unwrap()) =~= seq!['W' as u8, 'H' as u8, 'E' as u8, 'R' as u8, 'E' as u8]);
        },
        TokenType::TK_WINDOW => {
            assert(ascii_bytes(canonical_spelling(k).unwrap()) =~= seq!['W' as u8, 'I' as u8, 'N' as u8, 'D' as u8, 'O' as u8, 'W' as u8]);
        },
        TokenType::TK_WITH => {
            assert(ascii_bytes(canonical_spelling(k).unwrap()) =~= seq!['W' as u8, 'I' as u8, 'T' as u8, 'H' as u8]);
        },
        TokenType::TK_WITHOUT => {
            assert(ascii_bytes(canonical_spelling(k).unwrap()) =~= seq!['W' as u8, 'I' as u8, 'T' as u8, 'H' as u8, 'O' as u8, 'U' as u8, 'T' as u8]);
        },
        _ => {},
    }
}

/// A byte every keyword spelling is made of: an uppercase ASCII letter or an
/// underscore.
pub open spec fn is_keyword_byte(b: u8) -> bool {
    ('A' as u8 <= b && b <= 'Z' as u8) || b == '_' as u8
}

proof fn lemma_upper_len2(w: Seq<u8>)
    ensures
        keyword_kind_len2(w) is Some ==> forall|i: int| 0 <= i < w.len() ==> is_keyword_byte(#[trigger] w[i]),
{
}

proof fn lemma_upper_len3(w: Seq<u8>)
    ensures
        keyword_kind_len3(w) is Some ==> forall|i: int| 0 <= i < w.len() ==> is_keyword_byte(#[trigger] w[i]),
{
}

proof fn lemma_upper_len4(w: Seq<u8>)
    ensures
        keyword_kind_len4(w) is Some ==> forall|i: int| 0 <= i < w.len() ==> is_keyword_byte(#[trigger] w[i]),
{
}

proof fn lemma_upper_len5(w: Seq<u8>)
    ensures
        keyword_kind_len5(w) is Some ==> forall|i: int| 0 <= i < w.len() ==> is_keyword_byte(#[trigger] w[i]),
{
}

proof fn lemma_upper_len6(w: Seq<u8>)
    ensures
        keyword_kind_len6(w) is Some ==> forall|i: int| 0 <= i < w.len() ==> is_keyword_byte(#[trigger] w[i]),
{
}

proof fn lemma_upper_len7(w: Seq<u8>)
    ensures
        keyword_kind_len7(w) is Some ==> forall|i: int| 0 <= i < w.len() ==> is_keyword_byte(#[trigger] w[i]),
{
}

proof fn lemma_upper_len8(w: Seq<u8>)
    ensures
        keyword_kind_len8(w) is Some ==> forall|i: int| 0 <= i < w.len() ==> is_keyword_byte(#[trigger] w[i]),
{
}

proof fn lemma_upper_len9(w: Seq<u8>)
    ensures
        keyword_kind_len9(w) is Some ==> forall|i: int| 0 <= i < w.len() ==> is_keyword_byte(#[trigger] w[i]),
{
}

proof fn lemma_upper_len10(w: Seq<u8>)
    ensures
        keyword_kind_len10(w) is Some ==> forall|i: int| 0 <= i < w.len() ==> is_keyword_byte(#[trigger] w[i]),
{
}

proof fn lemma_upper_len11(w: Seq<u8>)
    ensures
        keyword_kind_len11(w) is Some ==> forall|i: int| 0 <= i < w.len() ==> is_keyword_byte(#[trigger] w[i]),
{
}

proof fn lemma_upper_len12(w: Seq<u8>)
    ensures
        keyword_kind_len12(w) is Some ==> forall|i: int| 0 <= i < w.len() ==> is_keyword_byte(#[trigger] w[i]),
{
}

proof fn lemma_upper_len13(w: Seq<u8>)
    ensures
        keyword_kind_len13(w) is Some ==> forall|i: int| 0 <= i < w.len() ==> is_keyword_byte(#[trigger] w[i]),
{
}

proof fn lemma_upper_len17(w: Seq<u8>)
    ensures
        keyword_kind_len17(w) is Some ==> forall|i: int| 0 <= i < w.len() ==> is_keyword_byte(#[trigger] w[i]),
{
}

/// Exact-case matching: only spellings made of uppercase letters and
/// underscores are in the table, so anything with a lowercase byte is not.
pub proof fn lemma_keywords_uppercase(w: Seq<u8>)
    ensures
        keyword_kind_of(w) is Some ==> forall|i: int| 0 <= i < w.len() ==> is_keyword_byte(#[trigger] w[i]),
{
    lemma_upper_len2(w);
    lemma_upper_len3(w);
    lemma_upper_len4(w);
    lemma_upper_len5(w);
    lemma_upper_len6(w);
    lemma_upper_len7(w);
    lemma_upper_len8(w);
    lemma_upper_len9(w);
    lemma_upper_len10(w);
    lemma_upper_len11(w);
    lemma_upper_len12(w);
    lemma_upper_len13(w);
    lemma_upper_len17(w);
}

/// Family collapse: every spelling of a keyword family classifies to the one
/// shared kind of that family.
#[verifier::rlimit(100)]
pub proof fn lemma_family_collapse()
    ensures
        keyword_kind_of(seq!['C' as u8, 'R' as u8, 'O' as u8, 'S' as u8, 'S' as u8]) == Some(TokenType::TK_JOIN_KW),
        keyword_kind_of(seq!['C' as u8, 'U' as u8, 'R' as u8, 'R' as u8, 'E' as u8, 'N' as u8, 'T' as u8, '_' as u8, 'D' as u8, 'A' as u8, 'T' as u8, 'E' as u8]) == Some(TokenType::TK_CTIME_KW),
        keyword_kind_of(seq!['C' as u8, 'U' as u8, 'R' as u8, 'R' as u8, 'E' as u8, 'N' as u8, 'T' as u8, '_' as u8, 'T' as u8, 'I' as u8, 'M' as u8, 'E' as u8]) == Some(TokenType::TK_CTIME_KW),
        keyword_kind_of(seq!['C' as u8, 'U' as u8, 'R' as u8, 'R' as u8, 'E' as u8, 'N' as u8, 'T' as u8, '_' as u8, 'T' as u8, 'I' as u8, 'M' as u8, 'E' as u8, 'S' as u8, 'T' as u8, 'A' as u8, 'M' as u8, 'P' as u8]) == Some(TokenType::TK_CTIME_KW),
        keyword_kind_of(seq!['F' as u8, 'U' as u8, 'L' as u8, 'L' as u8]) == Some(TokenType::TK_JOIN_KW),
        keyword_kind_of(seq!['G' as u8, 'L' as u8, 'O' as u8, 'B' as u8]) == Some(TokenType::TK_LIKE_KW),
        keyword_kind_of(seq!['I' as u8, 'N' as u8, 'N' as u8, 'E' as u8, 'R' as u8]) == Some(TokenType::TK_JOIN_KW),
        keyword_kind_of(seq!['L' as u8, 'E' as u8, 'F' as u8, 'T' as u8]) == Some(TokenType::TK_JOIN_KW),
        keyword_kind_of(seq!['L' as u8, 'I' as u8, 'K' as u8, 'E' as u8]) == Some(TokenType::TK_LIKE_KW),
        keyword_kind_of(seq!['M' as u8, 'A' as u8, 'T' as u8, 'C' as u8, 'H' as u8]) == Some(TokenType::TK_LIKE_KW),
        keyword_kind_of(seq!['N' as u8, 'A' as u8, 'T' as u8, 'U' as u8, 'R' as u8, 'A' as u8, 'L' as u8]) == Some(TokenType::TK_JOIN_KW),
        keyword_kind_of(seq!['O' as u8, 'U' as u8, 'T' as u8, 'E' as u8, 'R' as u8]) == Some(TokenType::TK_JOIN_KW),
        keyword_kind_of(seq!['R' as u8, 'E' as u8, 'G' as u8, 'E' as u8, 'X' as u8, 'P' as u8]) == Some(TokenType::TK_LIKE_KW),
        keyword_kind_of(seq!['R' as u8, 'I' as u8, 'G' as u8, 'H' as u8, 'T' as u8]) == Some(TokenType::TK_JOIN_KW),
{
}

/// The exposed longest-keyword constant is the true maximum: no keyword is
/// longer, and one keyword reaches it.
pub proof fn lemma_max_keyword_len()
    ensures
        forall|w: Seq<u8>| (#[trigger] keyword_kind_of(w)) is Some ==> w.len() <= MAX_KEYWORD_LEN,
        exists|w: Seq<u8>| (#[trigger] keyword_kind_of(w)) is Some && w.len() == MAX_KEYWORD_LEN,
{
    let ct = seq!['C' as u8, 'U' as u8, 'R' as u8, 'R' as u8, 'E' as u8, 'N' as u8, 'T' as u8, '_' as u8, 'T' as u8, 'I' as u8, 'M' as u8, 'E' as u8, 'S' as u8, 'T' as u8, 'A' as u8, 'M' as u8, 'P' as u8];
    assert(keyword_kind_of(ct) == Some(TokenType::TK_CTIME_KW));
    assert(ct.len() == MAX_KEYWORD_LEN);
}

} // verus!

