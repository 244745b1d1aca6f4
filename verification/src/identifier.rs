//! Identifiers that the library makes up for items that come without one.

use vstd::prelude::*;

verus! {

/// Whether `c` is a digit or one of the capitals `A` to `F`.
pub open spec fn is_upper_hex(c: char) -> bool {
    '0' <= c <= '9' || 'A' <= c <= 'F'
}

/// Whether `id` has the shape of a generated identifier: 36 characters in
/// groups of 8, 4, 4, 4 and 12 upper-case hexadecimal digits with a hyphen
/// between neighbouring groups.
pub open spec fn is_generated_id(id: Seq<char>) -> bool {
    &&& id.len() == 36
    &&& id[8] == '-'
    &&& id[13] == '-'
    &&& id[18] == '-'
    &&& id[23] == '-'
    &&& forall|i: int|
        0 <= i < 36 && i != 8 && i != 13 && i != 18 && i != 23 ==> is_upper_hex(#[trigger] id[i])
}

/// Draws a random identifier with `uuid::Uuid::new_v4` and writes it with
/// `encode_upper` of its hyphenated form. Which identifier comes out is
/// open; the contract states the shape that every one of them has. Where
/// the system hands out no random bytes the call does not return.
#[verifier::external_body]
pub(crate) fn fresh_id() -> (id: String)
    ensures
        is_generated_id(id@),
{
    ::uuid::Uuid::new_v4().hyphenated().encode_upper(&mut ::uuid::Uuid::encode_buffer()).to_string()
}

} // verus!
