//! Session token minting.

use vstd::prelude::*;

verus! {

/// Relies on uuid's `Uuid::new_v4` and its hyphenated `Display` form: a
/// version-4 UUID drawn from the operating system's random source, printed
/// as 36 ASCII characters. The value is random — 122 bits of entropy — so
/// nothing is promised of it beyond its length.
#[verifier::external_body]
pub(crate) fn mint_token() -> (r: String)
    ensures
        r@.len() == 36,
{
    uuid::Uuid::new_v4().to_string()
}

} // verus!
