//! Fresh identifiers.

use vstd::prelude::*;

verus! {

/// Number of characters in the text of an identifier: thirty-two
/// hexadecimal digits in five groups, with four hyphens between them.
pub const UUID_TEXT_LEN: usize = 36;

/// Draws a fresh random identifier with `uuid::Uuid::new_v4` and renders it
/// with the identifier's `to_string`. Which identifier comes back is not
/// determined; the contract claims only the length of its text.
#[verifier::external_body]
pub(crate) fn fresh_uuid() -> (id: String)
    ensures
        id@.len() == UUID_TEXT_LEN,
{
    uuid::Uuid::new_v4().to_string()
}

} // verus!
