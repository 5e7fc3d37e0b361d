//! Version tokens: the wrapper's fixed API version, the version stamps
//! every parameter structure must carry, and the packed (major, minor)
//! integer the driver reports as its maximum supported API version.

use vstd::prelude::*;

use crate::status::Error;
use crate::status::STATUS_SUCCESS;
use crate::status::spec_error_from_status;
use crate::status::error_from_status;

verus! {

/// Major part of the API version this wrapper targets.
pub const API_MAJOR_VERSION: u32 = 9;
/// Minor part of the API version this wrapper targets.
pub const API_MINOR_VERSION: u32 = 0;
/// The packed API version constant stamped into session-open requests:
/// the major part in the low bits, the minor part shifted high.
pub const API_VERSION: u32 = API_MAJOR_VERSION | (API_MINOR_VERSION << 24);

/// Version stamp of the entry-point table resolved at handle creation.
pub const FUNCTION_LIST_VER: u32 = API_VERSION | (2 << 16) | (7 << 28);
/// Version stamp of the session-open parameter structure.
pub const OPEN_SESSION_PARAMS_VER: u32 = API_VERSION | (1 << 16) | (7 << 28);
/// Version stamp of the session-initialization parameter structure.
pub const INITIALIZE_PARAMS_VER: u32 = API_VERSION | (5 << 16) | (7 << 28) | (1 << 31);
/// Version stamp of the embedded encode-configuration structure.
pub const CONFIG_VER: u32 = API_VERSION | (7 << 16) | (7 << 28) | (1 << 31);
/// Version stamp of the preset-configuration structure.
pub const PRESET_CONFIG_VER: u32 = API_VERSION | (4 << 16) | (7 << 28) | (1 << 31);
/// Version stamp of the input-buffer allocation structure.
pub const CREATE_INPUT_BUFFER_VER: u32 = API_VERSION | (1 << 16) | (7 << 28);
/// Version stamp of the input-buffer lock structure.
pub const LOCK_INPUT_BUFFER_VER: u32 = API_VERSION | (1 << 16) | (7 << 28);
/// Version stamp of the bitstream-buffer allocation structure.
pub const CREATE_BITSTREAM_BUFFER_VER: u32 = API_VERSION | (1 << 16) | (7 << 28);
/// Version stamp of the bitstream-buffer lock structure.
pub const LOCK_BITSTREAM_VER: u32 = API_VERSION | (1 << 16) | (7 << 28);
/// Version stamp of the per-frame picture parameter structure.
pub const PIC_PARAMS_VER: u32 = API_VERSION | (4 << 16) | (7 << 28) | (1 << 31);

/// An API version reported by the installed driver, split into its
/// major and minor parts.
#[derive(Clone, Copy, Debug, PartialEq, Eq, Structural)]
pub struct Version {
    /// Major version.
    pub major: u32,
    /// Minor version.
    pub minor: u32,
}

/// The driver packs its maximum supported version with the minor part
/// in the low four bits and the major part above them.
pub open spec fn spec_decompose_version(value: u32) -> Version {
    Version { major: value >> 4, minor: value & 0xf }
}

/// Re-packs a split version with the same bit layout the driver uses.
pub open spec fn spec_pack_version(version: Version) -> u32 {
    (version.major << 4) | (version.minor & 0xf)
}

/// Splits a packed driver version into (major, minor).
pub fn decompose_version(value: u32) -> (r: Version)
    ensures
        r == spec_decompose_version(value),
        r.minor <= 0xf,
{
    let minor: u32 = value & 0xf;
    assert(value & 0xf <= 0xf) by (bit_vector);
    Version { major: value >> 4, minor }
}

/// Packs a split version back into the driver's integer layout.
pub fn pack_version(version: Version) -> (r: u32)
    ensures
        r == spec_pack_version(version),
{
    (version.major << 4u32) | (version.minor & 0xf)
}

/// Decomposing a packed driver version and re-packing it with the same
/// bit layout reproduces the original integer, for every unsigned
/// 32-bit value.
pub proof fn lemma_version_round_trip(value: u32)
    ensures
        spec_pack_version(spec_decompose_version(value)) == value,
{
    assert(((value >> 4) << 4) | ((value & 0xf) & 0xf) == value) by (bit_vector);
}

/// A split version within the layout's ranges survives packing and
/// decomposition unchanged.
pub proof fn lemma_version_split_round_trip(version: Version)
    requires
        version.minor <= 0xf,
        version.major <= 0x0fff_ffff,
    ensures
        spec_decompose_version(spec_pack_version(version)) == version,
{
    let major = version.major;
    let minor = version.minor;
    assert(((((major << 4) | (minor & 0xf)) >> 4) == major) && ((((major << 4) | (minor & 0xf))
        & 0xf) == minor)) by (bit_vector)
        requires
            minor <= 0xf && major <= 0x0fff_ffff,
    ;
}

/// Interprets the driver's reply to the maximum-supported-version
/// query: on success the packed value is split into (major, minor) with
/// the driver's own bit layout; on failure the status is mapped onto
/// the error taxonomy.
pub fn max_version_supported(status: u32, value: u32) -> (r: Result<Version, Error>)
    ensures
        status == STATUS_SUCCESS ==> r == Ok::<Version, Error>(spec_decompose_version(value)),
        status != STATUS_SUCCESS ==> r == Err::<Version, Error>(spec_error_from_status(status)),
{
    if status == STATUS_SUCCESS {
        Ok(decompose_version(value))
    } else {
        Err(error_from_status(status))
    }
}

} // verus!
