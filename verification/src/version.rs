//! Packing and unpacking of graphics-API version numbers.
//!
//! A version is carried in one `u32`: a 3-bit variant, a 7-bit major, a
//! 10-bit minor and a 12-bit patch field, packed from the high bits down.

use vstd::prelude::*;

verus! {

/// The packed form of a version: variant in bits 29..32, major in 22..29,
/// minor in 12..22, patch in 0..12.
pub open spec fn packed_version(variant: u32, major: u32, minor: u32, patch: u32) -> u32 {
    (variant << 29) | (major << 22) | (minor << 12) | patch
}

/// The variant field of a packed version.
pub open spec fn spec_version_variant(version: u32) -> u32 {
    version >> 29
}

/// The major field of a packed version.
pub open spec fn spec_version_major(version: u32) -> u32 {
    (version >> 22) & 0x7f
}

/// The minor field of a packed version.
pub open spec fn spec_version_minor(version: u32) -> u32 {
    (version >> 12) & 0x3ff
}

/// The patch field of a packed version.
pub open spec fn spec_version_patch(version: u32) -> u32 {
    version & 0xfff
}

/// Packs the four version fields into one `u32`.
pub fn make_api_version(variant: u32, major: u32, minor: u32, patch: u32) -> (v: u32)
    requires
        variant < 8,
        major < 128,
        minor < 1024,
        patch < 4096,
    ensures
        v == packed_version(variant, major, minor, patch),
{
    (variant << 29) | (major << 22) | (minor << 12) | patch
}

/// Reads the major field back out of a packed version.
pub fn api_version_major(version: u32) -> (m: u32)
    ensures
        m == spec_version_major(version),
{
    (version >> 22) & 0x7f
}

/// Reads the minor field back out of a packed version.
pub fn api_version_minor(version: u32) -> (m: u32)
    ensures
        m == spec_version_minor(version),
{
    (version >> 12) & 0x3ff
}

/// Reads the patch field back out of a packed version.
pub fn api_version_patch(version: u32) -> (p: u32)
    ensures
        p == spec_version_patch(version),
{
    version & 0xfff
}

/// Packing four in-range fields and unpacking them again gives the fields
/// back unchanged.
pub proof fn lemma_version_round_trip(variant: u32, major: u32, minor: u32, patch: u32)
    requires
        variant < 8,
        major < 128,
        minor < 1024,
        patch < 4096,
    ensures
        spec_version_variant(packed_version(variant, major, minor, patch)) == variant,
        spec_version_major(packed_version(variant, major, minor, patch)) == major,
        spec_version_minor(packed_version(variant, major, minor, patch)) == minor,
        spec_version_patch(packed_version(variant, major, minor, patch)) == patch,
{
    assert(((variant << 29) | (major << 22) | (minor << 12) | patch) >> 29 == variant
        && (((variant << 29) | (major << 22) | (minor << 12) | patch) >> 22) & 0x7f == major
        && (((variant << 29) | (major << 22) | (minor << 12) | patch) >> 12) & 0x3ff == minor
        && ((variant << 29) | (major << 22) | (minor << 12) | patch) & 0xfff == patch) by (bit_vector)
        requires
            variant < 8,
            major < 128,
            minor < 1024,
            patch < 4096,
    ;
}

} // verus!
