//! The API handle: the entry-point table the provider resolves for a
//! fixed API version.
//!
//! Each entry point is either present or absent; absence is a valid
//! state meaning "uninitialized/unsupported", not a crash. The handle
//! is resolved once and then only read.

use vstd::prelude::*;

use crate::status::Error;
use crate::status::STATUS_SUCCESS;
use crate::status::spec_error_from_status;
use crate::status::error_from_status;

verus! {

/// Presence of each provider entry point the wrapper calls. The
/// provider fills the table at resolution time; a field is `true`
/// exactly when the installed driver supplied that entry point.
#[derive(Clone, Copy, Debug, PartialEq, Eq, Structural)]
pub struct EntryPoints {
    /// Opens an encode session against a device.
    pub open_encode_session: bool,
    /// Counts the supported codec identifiers.
    pub encode_guid_count: bool,
    /// Fetches the supported codec identifiers.
    pub encode_guids: bool,
    /// Counts the presets of one codec.
    pub encode_preset_count: bool,
    /// Fetches the presets of one codec.
    pub encode_preset_guids: bool,
    /// Counts the input formats of one codec.
    pub input_format_count: bool,
    /// Fetches the input formats of one codec.
    pub input_formats: bool,
    /// Fetches the configuration blob of one (codec, preset) pair.
    pub encode_preset_config: bool,
    /// Finalizes the session's encode parameters.
    pub initialize_encoder: bool,
    /// Allocates an input picture buffer.
    pub create_input_buffer: bool,
    /// Locks an input buffer for caller writes.
    pub lock_input_buffer: bool,
    /// Unlocks an input buffer.
    pub unlock_input_buffer: bool,
    /// Allocates an output bitstream buffer.
    pub create_bitstream_buffer: bool,
    /// Locks an output buffer for caller reads.
    pub lock_bitstream: bool,
    /// Unlocks an output buffer.
    pub unlock_bitstream: bool,
    /// Submits one frame into the encode pipeline.
    pub encode_picture: bool,
    /// Destroys the encoder context.
    pub destroy_encoder: bool,
}

/// Resolved API handle: which entry points the installed driver
/// supplied for the wrapper's fixed API version. Immutable once
/// created.
#[derive(Clone, Copy, Debug)]
pub struct Api {
    table: EntryPoints,
}

impl Api {
    /// The resolved presence table.
    pub closed spec fn spec_entries(&self) -> EntryPoints {
        self.table
    }

    /// Interprets the provider's reply to the table-resolution call:
    /// on a zero status the handle holds exactly the presence table the
    /// provider filled; any other status is mapped onto the error
    /// taxonomy and no handle exists.
    pub fn init(status: u32, table: EntryPoints) -> (r: Result<Api, Error>)
        ensures
            status == STATUS_SUCCESS ==> (r matches Ok(api) && api.spec_entries() == table),
            status != STATUS_SUCCESS ==> r == Err::<Api, Error>(spec_error_from_status(status)),
    {
        if status == STATUS_SUCCESS {
            Ok(Api { table })
        } else {
            Err(error_from_status(status))
        }
    }

    /// The resolved presence table.
    pub fn entries(&self) -> (r: EntryPoints)
        ensures
            r == self.spec_entries(),
    {
        self.table
    }
}

} // verus!
