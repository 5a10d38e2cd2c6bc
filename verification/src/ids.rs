//! Random identifiers.

use vstd::prelude::*;

verus! {

/// Draws a random identifier with `uuid::Uuid::new_v4` and returns its value
/// as a 128-bit number (`Uuid::as_u128`, most significant byte first).
///
/// The value is random; what is stated is what `new_v4` sets in every case:
/// the version field (bits 76 to 79) holds 4 and the variant field (bits 62
/// and 63) holds binary 10.
#[verifier::external_body]
pub(crate) fn new_v4_value() -> (r: u128)
    ensures
        (r >> 76u128) & 0xfu128 == 4,
        (r >> 62u128) & 0x3u128 == 2,
{
    uuid::Uuid::new_v4().as_u128()
}

} // verus!
