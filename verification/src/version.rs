//! Versions: the ABI versions this binding targets, and the decoding of the
//! native library's packed version number.

use vstd::prelude::*;

verus! {

/// Version of the `PrismConfig` ABI this binding targets. Mirrors
/// `PRISM_CONFIG_VERSION`.
pub const CONFIG_VERSION: u8 = 3;

/// Backend-plugin ABI version this binding targets. Mirrors
/// `PRISM_PLUGIN_ABI_VERSION`.
///
/// A plugin library whose `abi_version` differs makes Prism report
/// [`crate::Error::IncompatibleAbi`].
pub const PLUGIN_ABI_VERSION: u64 = 1;

/// The packed form of a version: `(major << 16) | (minor << 8) | patch`.
pub open spec fn packed_version(major: u8, minor: u8, patch: u8) -> int {
    major * 65536 + minor * 256 + patch
}

/// The three bytes of a packed version: the major byte, the minor byte and
/// the patch byte.
pub open spec fn version_parts(packed: u32) -> (u8, u8, u8) {
    (((packed / 65536) % 256) as u8, ((packed / 256) % 256) as u8, (packed % 256) as u8)
}

/// Split `prism_version()`'s packed `(major << 16) | (minor << 8) | patch`
/// encoding into `(major, minor, patch)`; bits above the major byte are
/// ignored.
pub fn decode_version(packed: u32) -> (r: (u8, u8, u8))
    ensures
        r.0 == (packed / 65536) % 256,
        r.1 == (packed / 256) % 256,
        r.2 == packed % 256,
        r == version_parts(packed),
{
    let major = ((packed >> 16) & 0xFF) as u8;
    let minor = ((packed >> 8) & 0xFF) as u8;
    let patch = (packed & 0xFF) as u8;
    assert(((packed >> 16) & 0xFF) == (packed / 65536) % 256) by (bit_vector);
    assert(((packed >> 8) & 0xFF) == (packed / 256) % 256) by (bit_vector);
    assert((packed & 0xFF) == packed % 256) by (bit_vector);
    (major, minor, patch)
}

/// Decoding a packed version gives back the three parts it was packed from:
/// `version_parts((major << 16) | (minor << 8) | patch) == (major, minor, patch)`.
pub proof fn lemma_decode_packed(major: u8, minor: u8, patch: u8)
    ensures
        packed_version(major, minor, patch) <= u32::MAX,
        version_parts(packed_version(major, minor, patch) as u32) == (major, minor, patch),
        ({
            let p = packed_version(major, minor, patch);
            &&& (p / 65536) % 256 == major
            &&& (p / 256) % 256 == minor
            &&& p % 256 == patch
        }),
{
    let p = packed_version(major, minor, patch);
    assert(p / 65536 == major) by (nonlinear_arith)
        requires
            p == major * 65536 + minor * 256 + patch,
            0 <= minor < 256,
            0 <= patch < 256,
            0 <= major,
    ;
    assert(p / 256 == major * 256 + minor) by (nonlinear_arith)
        requires
            p == major * 65536 + minor * 256 + patch,
            0 <= patch < 256,
            0 <= major,
            0 <= minor,
    ;
    assert((major * 256 + minor) % 256 == minor) by (nonlinear_arith)
        requires
            0 <= minor < 256,
            0 <= major,
    ;
    assert(p % 256 == patch) by (nonlinear_arith)
        requires
            p == major * 65536 + minor * 256 + patch,
            0 <= patch < 256,
            0 <= major,
            0 <= minor,
    ;
}

/// Only the low three bytes matter: a packed version and the same value
/// with its top byte cleared decode alike.
pub proof fn lemma_top_byte_ignored(packed: u32)
    ensures
        version_parts(packed) == version_parts(packed % 0x100_0000),
{
    let low = packed % 0x100_0000;
    assert((packed / 65536) % 256 == (low / 65536) % 256) by (bit_vector)
        requires
            low == packed % 0x100_0000,
    ;
    assert((packed / 256) % 256 == (low / 256) % 256) by (bit_vector)
        requires
            low == packed % 0x100_0000,
    ;
    assert(packed % 256 == low % 256) by (bit_vector)
        requires
            low == packed % 0x100_0000,
    ;
}

} // verus!
