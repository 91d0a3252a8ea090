//! Identifiers for newly stored nodes.

use vstd::prelude::*;

verus! {

/// Whether a character is one of `0` to `9` or `a` to `f`.
pub open spec fn is_hex_digit(c: char) -> bool {
    ('0' <= c && c <= '9') || ('a' <= c && c <= 'f')
}

/// Whether a text has the shape of an object identifier: 24 hex digits.
pub open spec fn is_object_id(text: Seq<char>) -> bool {
    text.len() == 24 && forall|i: int| 0 <= i < text.len() ==> is_hex_digit(#[trigger] text[i])
}

/// `bson::oid::ObjectId::new`, written out with `ObjectId::to_hex`. Trusted:
/// the identifier has twelve bytes, which `to_hex` writes as 24 lower-case
/// hex digits. Which digits they are depends on the clock, the process and a
/// counter, so nothing more is claimed; two calls may differ. The call reads
/// the system clock and panics where that stands before 1970 or beyond what
/// the four bytes of a timestamp can hold.
#[verifier::external_body]
pub(crate) fn fresh_object_id() -> (id: String)
    ensures
        is_object_id(id@),
{
    bson::oid::ObjectId::new().to_hex()
}

} // verus!
