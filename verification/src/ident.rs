//! The identifier validator: a pure, byte-wise predicate on names.
use vstd::prelude::*;

verus! {

use vstd::string::StringSliceAdditionalSpecFns;

/// A byte that may begin an identifier: an ASCII letter, an underscore, or any
/// byte above the ASCII range (multi-byte UTF-8 passes byte-wise).
pub open spec fn spec_is_identifier_start(b: u8) -> bool {
    ('A' as u8 <= b && b <= 'Z' as u8) || b == '_' as u8 || ('a' as u8 <= b && b <= 'z' as u8)
        || b > 0x7f
}

/// A byte that may continue an identifier: the start set plus ASCII digits
/// and the dollar sign.
pub open spec fn spec_is_identifier_continue(b: u8) -> bool {
    b == '$' as u8 || ('0' as u8 <= b && b <= '9' as u8) || spec_is_identifier_start(b)
}

/// A lexically valid identifier: non-empty, a start byte first, continue
/// bytes after. Keyword status plays no part.
pub open spec fn spec_is_identifier(bytes: Seq<u8>) -> bool {
    &&& bytes.len() > 0
    &&& spec_is_identifier_start(bytes[0])
    &&& forall|i: int| 1 <= i < bytes.len() ==> spec_is_identifier_continue(#[trigger] bytes[i])
}

pub fn is_identifier_start(b: u8) -> (r: bool)
    ensures
        r == spec_is_identifier_start(b),
{
    (b >= 'A' as u8 && b <= 'Z' as u8) || b == '_' as u8 || (b >= 'a' as u8 && b <= 'z' as u8)
        || b > 0x7f
}

pub fn is_identifier_continue(b: u8) -> (r: bool)
    ensures
        r == spec_is_identifier_continue(b),
{
    b == '$' as u8 || (b >= '0' as u8 && b <= '9' as u8) || (b >= 'A' as u8 && b <= 'Z' as u8)
        || b == '_' as u8 || (b >= 'a' as u8 && b <= 'z' as u8) || b > 0x7f
}

/// Whether `name` is a lexically valid identifier, judged over its bytes.
pub fn is_identifier(name: &str) -> (r: bool)
    ensures
        r == spec_is_identifier(name.spec_bytes()),
{
    let bytes = name.as_bytes();
    if bytes.len() == 0 {
        return false;
    }
    if !is_identifier_start(bytes[0]) {
        return false;
    }
    let mut i: usize = 1;
    while i < bytes.len()
        invariant
            1 <= i <= bytes@.len(),
            bytes@ == name.spec_bytes(),
            spec_is_identifier_start(bytes@[0]),
            forall|j: int| 1 <= j < i ==> spec_is_identifier_continue(#[trigger] bytes@[j]),
        decreases bytes@.len() - i,
    {
        if !is_identifier_continue(bytes[i]) {
            return false;
        }
        i += 1;
    }
    true
}

} // verus!
