use vstd::prelude::*;

verus! {

/// What every version-4 UUID has in common, read as 128 bits: the version
/// field holds 4, and the variant field starts with the bits `10`.
pub open spec fn is_version_4(bits: u128) -> bool {
    &&& (bits >> 76) & 0xf == 4
    &&& (bits >> 62) & 0x3 == 2
}

/// Draws a random version-4 UUID with `uuid::Uuid::new_v4` and hands it out as
/// a number with `uuid::Uuid::as_u128`. All that is claimed of it is what the
/// UUID's fixed fields hold; the other 122 bits come from the operating
/// system's random source. `new_v4` panics where that source fails.
#[verifier::external_body]
pub(crate) fn random_uuid() -> (bits: u128)
    ensures
        is_version_4(bits),
{
    uuid::Uuid::new_v4().as_u128()
}

} // verus!
