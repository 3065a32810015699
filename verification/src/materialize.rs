//! Token materialization: deciding which kinds carry an owned payload string.
use vstd::prelude::*;

use crate::token::TokenType;

verus! {

use vstd::string::StringSliceAdditionalSpecFns;
use vstd::utf8::encode_utf8;
use vstd::utf8::valid_utf8;

/// Token value (lexeme).
pub type Token = Option<String>;

/// Whether tokens of this kind keep the scanned text as an owned payload:
/// the value-bearing kinds and the three multi-spelling keyword families do,
/// because the kind alone does not determine the text; every other kind does
/// not, since the reverse table reconstructs its one spelling.
pub open spec fn has_payload(k: TokenType) -> bool {
    match k {
        TokenType::TK_CTIME_KW => true,
        TokenType::TK_JOIN_KW => true,
        TokenType::TK_LIKE_KW => true,
        TokenType::TK_STRING => true,
        TokenType::TK_ID => true,
        TokenType::TK_VARIABLE => true,
        TokenType::TK_ANY => true,
        TokenType::TK_BLOB => true,
        TokenType::TK_INTEGER => true,
        TokenType::TK_FLOAT => true,
        _ => false,
    }
}

/// Relies on std::str::from_utf8: returns the borrowed string over exactly the
/// input bytes when they are valid UTF-8, and an error otherwise.
#[verifier::external_body]
fn utf8_str(bytes: &[u8]) -> (r: Option<&str>)
    ensures
        r is Some <==> valid_utf8(bytes@),
        r matches Some(s) ==> s.spec_bytes() == bytes@,
{
    core::str::from_utf8(bytes).ok()
}

/// Copy a scanned span into an owned string. The scanner guarantees the span
/// is valid UTF-8; that guarantee is the precondition here.
pub fn from_bytes(bytes: &[u8]) -> (r: String)
    requires
        valid_utf8(bytes@),
    ensures
        encode_utf8(r@) == bytes@,
{
    let s = utf8_str(bytes);
    s.unwrap().to_owned()
}

impl TokenType {
    /// Materialize the token value for a span classified as this kind: a fresh
    /// owned copy of `value` for the payload-bearing kinds, and no payload for
    /// the kinds whose spelling the kind alone determines.
    pub fn into_token(&self, value: &[u8]) -> (t: Token)
        requires
            has_payload(*self) ==> valid_utf8(value@),
        ensures
            t is Some <==> has_payload(*self),
            t matches Some(v) ==> encode_utf8(v@) == value@,
    {
        match self {
            TokenType::TK_CTIME_KW => Some(from_bytes(value)),
            TokenType::TK_JOIN_KW => Some(from_bytes(value)),
            TokenType::TK_LIKE_KW => Some(from_bytes(value)),
            // Identifiers
            TokenType::TK_STRING => Some(from_bytes(value)),
            TokenType::TK_ID => Some(from_bytes(value)),
            TokenType::TK_VARIABLE => Some(from_bytes(value)),
            // Values
            TokenType::TK_ANY => Some(from_bytes(value)),
            TokenType::TK_BLOB => Some(from_bytes(value)),
            TokenType::TK_INTEGER => Some(from_bytes(value)),
            TokenType::TK_FLOAT => Some(from_bytes(value)),
            _ => None,
        }
    }
}

} // verus!
