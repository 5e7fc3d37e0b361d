//! Version-stamped request descriptors.
//!
//! The provider requires every parameter structure to declare which
//! layout the caller expects; omitting the stamp is accepted by some
//! drivers and rejected as a version error by others, so it must never
//! be skipped. Each descriptor here is only constructible with its
//! stamp already in place.

use vstd::prelude::*;

use crate::format::BufferFormat;
use crate::format::DeviceType;
use crate::format::spec_device_type_raw;
use crate::format::device_type_raw;
use crate::format::spec_format_raw;
use crate::format::format_raw;
use crate::version::API_VERSION;
use crate::version::CONFIG_VER;
use crate::version::CREATE_BITSTREAM_BUFFER_VER;
use crate::version::CREATE_INPUT_BUFFER_VER;
use crate::version::LOCK_BITSTREAM_VER;
use crate::version::LOCK_INPUT_BUFFER_VER;
use crate::version::OPEN_SESSION_PARAMS_VER;
use crate::version::PIC_PARAMS_VER;
use crate::version::PRESET_CONFIG_VER;
use crate::session::InputBuffer;
use crate::session::OutputBuffer;

verus! {

/// What a session-open call sends: the structure stamp, the API
/// version the wrapper was built for, and the device kind. The opaque
/// device handle itself never passes through the wrapper's logic.
pub struct OpenSessionRequest {
    /// Version stamp of the session-open structure.
    pub version: u32,
    /// The API version the wrapper targets.
    pub api_version: u32,
    /// The provider's integer encoding of the device kind.
    pub device_type: u32,
}

impl OpenSessionRequest {
    /// Builds the session-open descriptor, stamped.
    pub fn new(device_type: DeviceType) -> (r: OpenSessionRequest)
        ensures
            r.version == OPEN_SESSION_PARAMS_VER,
            r.api_version == API_VERSION,
            r.device_type == spec_device_type_raw(device_type),
    {
        OpenSessionRequest {
            version: OPEN_SESSION_PARAMS_VER,
            api_version: API_VERSION,
            device_type: device_type_raw(device_type),
        }
    }
}

/// What a preset-configuration query sends: the blob's own stamp and
/// the stamp of the encode configuration embedded in it, both declared
/// before the provider fills the blob.
pub struct PresetConfigRequest {
    /// Version stamp of the preset-configuration structure.
    pub version: u32,
    /// Version stamp of the embedded encode configuration.
    pub config_version: u32,
}

impl PresetConfigRequest {
    /// Builds the preset-configuration descriptor, stamped.
    pub fn new() -> (r: PresetConfigRequest)
        ensures
            r.version == PRESET_CONFIG_VER,
            r.config_version == CONFIG_VER,
    {
        PresetConfigRequest { version: PRESET_CONFIG_VER, config_version: CONFIG_VER }
    }
}

/// What an input-buffer allocation sends: the stamp and the requested
/// geometry.
pub struct CreateInputBufferRequest {
    /// Version stamp of the allocation structure.
    pub version: u32,
    /// Requested buffer width.
    pub width: u32,
    /// Requested buffer height.
    pub height: u32,
    /// The provider's integer encoding of the requested format.
    pub buffer_format: u32,
}

impl CreateInputBufferRequest {
    /// Builds the input-buffer allocation descriptor, stamped.
    pub fn new(width: u32, height: u32, format: BufferFormat) -> (r: CreateInputBufferRequest)
        ensures
            r.version == CREATE_INPUT_BUFFER_VER,
            r.width == width,
            r.height == height,
            r.buffer_format == spec_format_raw(format),
    {
        CreateInputBufferRequest {
            version: CREATE_INPUT_BUFFER_VER,
            width,
            height,
            buffer_format: format_raw(format),
        }
    }
}

/// What an input-buffer lock sends: the stamp and the buffer's token.
pub struct LockInputBufferRequest {
    /// Version stamp of the lock structure.
    pub version: u32,
    /// Token of the buffer to lock.
    pub buffer_token: u64,
}

impl LockInputBufferRequest {
    /// Builds the input-buffer lock descriptor, stamped.
    pub fn new(buffer_token: u64) -> (r: LockInputBufferRequest)
        ensures
            r.version == LOCK_INPUT_BUFFER_VER,
            r.buffer_token == buffer_token,
    {
        LockInputBufferRequest { version: LOCK_INPUT_BUFFER_VER, buffer_token }
    }
}

/// What a bitstream-buffer allocation sends: the stamp alone; the
/// provider chooses the geometry.
pub struct CreateBitstreamBufferRequest {
    /// Version stamp of the allocation structure.
    pub version: u32,
}

impl CreateBitstreamBufferRequest {
    /// Builds the bitstream-buffer allocation descriptor, stamped.
    pub fn new() -> (r: CreateBitstreamBufferRequest)
        ensures
            r.version == CREATE_BITSTREAM_BUFFER_VER,
    {
        CreateBitstreamBufferRequest { version: CREATE_BITSTREAM_BUFFER_VER }
    }
}

/// What a bitstream-buffer lock sends: the stamp and the buffer's
/// token. The provider reports the valid bitstream length in its reply.
pub struct LockBitstreamRequest {
    /// Version stamp of the lock structure.
    pub version: u32,
    /// Token of the buffer to lock.
    pub output_token: u64,
}

impl LockBitstreamRequest {
    /// Builds the bitstream lock descriptor, stamped.
    pub fn new(output_token: u64) -> (r: LockBitstreamRequest)
        ensures
            r.version == LOCK_BITSTREAM_VER,
            r.output_token == output_token,
    {
        LockBitstreamRequest { version: LOCK_BITSTREAM_VER, output_token }
    }
}

/// What one frame submission sends: the stamp, the input surface with
/// the geometry the wrapper recorded at allocation time (the provider
/// does not report it later), and the output bitstream buffer.
pub struct PicParams {
    /// Version stamp of the picture-parameters structure.
    pub version: u32,
    /// Token of the input surface.
    pub input_token: u64,
    /// The provider's integer encoding of the input format.
    pub buffer_format: u32,
    /// Input picture width.
    pub width: u32,
    /// Input picture height.
    pub height: u32,
    /// Row pitch of the input surface; the width, as allocated.
    pub pitch: u32,
    /// Token of the output bitstream buffer.
    pub output_token: u64,
}

impl PicParams {
    /// Builds the per-frame descriptor from the two buffers, stamped.
    pub fn new(input: &InputBuffer, output: &OutputBuffer) -> (r: PicParams)
        ensures
            r.version == PIC_PARAMS_VER,
            r.input_token == input@.token,
            r.buffer_format == spec_format_raw(input@.format),
            r.width == input@.width,
            r.height == input@.height,
            r.pitch == input@.width,
            r.output_token == output@.token,
    {
        PicParams {
            version: PIC_PARAMS_VER,
            input_token: input.token(),
            buffer_format: format_raw(input.format()),
            width: input.width(),
            height: input.height(),
            pitch: input.width(),
            output_token: output.token(),
        }
    }
}

} // verus!
