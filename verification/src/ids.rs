//! Identifiers of tabs and of history entries.
//!
//! An identifier is a UUID, held as the 128-bit number that its sixteen
//! bytes spell in big-endian order. The `uuid` crate draws fresh ones and
//! writes them as text; what is believed of it without proof is stated on
//! the two wrappers below.

use vstd::prelude::*;

verus! {

/// The bits that mark a UUID as version 4 (random), variant RFC 9562.
pub open spec fn is_random_uuid(id: u128) -> bool {
    id & 0x0000_0000_0000_f000_c000_0000_0000_0000u128
        == 0x0000_0000_0000_4000_8000_0000_0000_0000u128
}

/// The text that the `uuid` crate writes for the UUID whose number is `id`:
/// lower-case hexadecimal digits in groups of 8, 4, 4, 4 and 12, joined by
/// hyphens.
pub uninterp spec fn hyphenated(id: u128) -> Seq<char>;

/// Draws a fresh random identifier with `uuid::Uuid::new_v4` and hands it
/// out as a number through `Uuid::as_u128`.
///
/// Trusted: of the outcome only the version and variant bits are claimed,
/// which `new_v4` sets on every value. That two draws differ is likely and
/// is not claimed.
#[verifier::external_body]
pub(crate) fn fresh_id() -> (id: u128)
    ensures
        is_random_uuid(id),
{
    uuid::Uuid::new_v4().as_u128()
}

/// Writes an identifier as text, by `uuid::Uuid`'s `Display` on
/// `Uuid::from_u128(id)`.
///
/// Trusted: the text depends on `id` alone, so it is given the name
/// [`hyphenated`]; nothing else is claimed of it.
#[verifier::external_body]
pub(crate) fn id_text(id: u128) -> (text: String)
    ensures
        text@ == hyphenated(id),
{
    uuid::Uuid::from_u128(id).to_string()
}

} // verus!
