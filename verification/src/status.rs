//! Provider status codes and their mapping onto the wrapper's closed
//! error taxonomy.
//!
//! Every call into the provider returns an unsigned 32-bit status where
//! zero means success. A non-zero status is mapped to one `Error`
//! variant; codes outside the recognized set map to `Error::Unknown`
//! rather than failing the mapping itself.

use vstd::prelude::*;

verus! {

/// Status value the provider returns on success.
pub const STATUS_SUCCESS: u32 = 0;
/// Provider status: an argument pointer was invalid.
pub const STATUS_INVALID_PTR: u32 = 6;
/// Provider status: the encode device supplied at open is invalid.
pub const STATUS_INVALID_ENCODERDEVICE: u32 = 3;
/// Provider status: no capable device exists.
pub const STATUS_DEVICE_NOT_EXIST: u32 = 5;
/// Provider status: an unsupported parameter was passed.
pub const STATUS_UNSUPPORTED_PARAM: u32 = 12;
/// Provider status: the provider ran out of memory.
pub const STATUS_OUT_OF_MEMORY: u32 = 10;
/// Provider status: an invalid parameter was passed.
pub const STATUS_INVALID_PARAM: u32 = 8;
/// Provider status: a structure carried the wrong version stamp.
pub const STATUS_INVALID_VERSION: u32 = 15;
/// Provider status: an unspecified provider failure.
pub const STATUS_GENERIC: u32 = 20;

/// The wrapper's closed error taxonomy. Every fallible operation of the
/// library reports one of these; no provider code escapes unmapped.
#[derive(Clone, Copy, Debug, PartialEq, Eq, Structural)]
pub enum Error {
    /// The required entry point was absent from the resolved table.
    Uninitialized,
    /// The provider rejected a pointer argument.
    InvalidPointer,
    /// The device handle did not name a usable encode device.
    InvalidEncodeDevice,
    /// No capable device exists.
    DeviceNotExist,
    /// A parameter is outside what the provider supports.
    UnsupportedParam,
    /// The provider could not allocate memory.
    OutOfMemory,
    /// A parameter value was invalid, or the wrapper itself rejected a
    /// call that would have violated the buffer protocol.
    InvalidParam,
    /// A structure version stamp was wrong for the installed provider.
    InvalidVersion,
    /// An unspecified provider failure, or a provider contract
    /// violation detected by the wrapper.
    Generic,
    /// Any provider status outside the recognized set.
    Unknown,
}

/// The provider status codes the taxonomy recognizes. Zero is in the
/// set because the legacy numbering reserved it for `Uninitialized`;
/// dispatch never maps a success status, so the case is inert there.
pub open spec fn is_known_status(status: u32) -> bool {
    ||| status == STATUS_SUCCESS
    ||| status == STATUS_INVALID_PTR
    ||| status == STATUS_INVALID_ENCODERDEVICE
    ||| status == STATUS_DEVICE_NOT_EXIST
    ||| status == STATUS_UNSUPPORTED_PARAM
    ||| status == STATUS_OUT_OF_MEMORY
    ||| status == STATUS_INVALID_PARAM
    ||| status == STATUS_INVALID_VERSION
    ||| status == STATUS_GENERIC
}

/// Total mapping from a provider status code to the error taxonomy.
pub open spec fn spec_error_from_status(status: u32) -> Error {
    if status == STATUS_SUCCESS {
        Error::Uninitialized
    } else if status == STATUS_INVALID_PTR {
        Error::InvalidPointer
    } else if status == STATUS_INVALID_ENCODERDEVICE {
        Error::InvalidEncodeDevice
    } else if status == STATUS_DEVICE_NOT_EXIST {
        Error::DeviceNotExist
    } else if status == STATUS_UNSUPPORTED_PARAM {
        Error::UnsupportedParam
    } else if status == STATUS_OUT_OF_MEMORY {
        Error::OutOfMemory
    } else if status == STATUS_INVALID_PARAM {
        Error::InvalidParam
    } else if status == STATUS_INVALID_VERSION {
        Error::InvalidVersion
    } else if status == STATUS_GENERIC {
        Error::Generic
    } else {
        Error::Unknown
    }
}

/// Maps a provider status code to the error taxonomy; codes outside
/// the recognized set yield `Error::Unknown`, never a failure.
pub fn error_from_status(status: u32) -> (r: Error)
    ensures
        r == spec_error_from_status(status),
{
    if status == STATUS_SUCCESS {
        Error::Uninitialized
    } else if status == STATUS_INVALID_PTR {
        Error::InvalidPointer
    } else if status == STATUS_INVALID_ENCODERDEVICE {
        Error::InvalidEncodeDevice
    } else if status == STATUS_DEVICE_NOT_EXIST {
        Error::DeviceNotExist
    } else if status == STATUS_UNSUPPORTED_PARAM {
        Error::UnsupportedParam
    } else if status == STATUS_OUT_OF_MEMORY {
        Error::OutOfMemory
    } else if status == STATUS_INVALID_PARAM {
        Error::InvalidParam
    } else if status == STATUS_INVALID_VERSION {
        Error::InvalidVersion
    } else if status == STATUS_GENERIC {
        Error::Generic
    } else {
        Error::Unknown
    }
}

/// Mapping a status outside the recognized set always yields
/// `Error::Unknown`: the mapping is total and never fails on an
/// unrecognized provider code.
pub proof fn lemma_unrecognized_status_maps_to_unknown(status: u32)
    requires
        !is_known_status(status),
    ensures
        spec_error_from_status(status) == Error::Unknown,
{
}

/// The single dispatch rule every provider call funnels through: an
/// absent entry point fails with `Uninitialized`; a present entry point
/// succeeds exactly when its status is zero, and otherwise fails with
/// the mapped status.
pub open spec fn spec_dispatch(present: bool, status: u32) -> Result<(), Error> {
    if !present {
        Err(Error::Uninitialized)
    } else if status != STATUS_SUCCESS {
        Err(spec_error_from_status(status))
    } else {
        Ok(())
    }
}

/// Applies the dispatch rule to one provider call outcome.
pub fn dispatch(present: bool, status: u32) -> (r: Result<(), Error>)
    ensures
        r == spec_dispatch(present, status),
{
    if !present {
        Err(Error::Uninitialized)
    } else if status != STATUS_SUCCESS {
        Err(error_from_status(status))
    } else {
        Ok(())
    }
}

} // verus!
