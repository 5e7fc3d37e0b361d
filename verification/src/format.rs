//! Closed enumerations the provider encodes as unsigned 32-bit values:
//! the device kind a session is opened against and the pixel/surface
//! layout of a buffer.
//!
//! Buffer formats must round-trip through the provider's integer
//! encoding losslessly, and an integer outside the known set maps to
//! `BufferFormat::Undefined` rather than failing.

use vstd::prelude::*;

verus! {

/// Raw value of `BufferFormat::NV12`.
pub const RAW_FORMAT_NV12: u32 = 0x1;
/// Raw value of `BufferFormat::YV12`.
pub const RAW_FORMAT_YV12: u32 = 0x10;
/// Raw value of `BufferFormat::IYUV`.
pub const RAW_FORMAT_IYUV: u32 = 0x100;
/// Raw value of `BufferFormat::YUV444`.
pub const RAW_FORMAT_YUV444: u32 = 0x1000;
/// Raw value of `BufferFormat::YUV420_10Bit`.
pub const RAW_FORMAT_YUV420_10BIT: u32 = 0x10000;
/// Raw value of `BufferFormat::YUV444_10Bit`.
pub const RAW_FORMAT_YUV444_10BIT: u32 = 0x100000;
/// Raw value of `BufferFormat::ARGB`.
pub const RAW_FORMAT_ARGB: u32 = 0x1000000;
/// Raw value of `BufferFormat::ARGB10`.
pub const RAW_FORMAT_ARGB10: u32 = 0x2000000;
/// Raw value of `BufferFormat::AYUV`.
pub const RAW_FORMAT_AYUV: u32 = 0x4000000;
/// Raw value of `BufferFormat::ABGR`.
pub const RAW_FORMAT_ABGR: u32 = 0x10000000;
/// Raw value of `BufferFormat::ABGR10`.
pub const RAW_FORMAT_ABGR10: u32 = 0x20000000;
/// Raw value of `BufferFormat::U8`.
pub const RAW_FORMAT_U8: u32 = 0x40000000;

/// The kind of compute device a session is opened against. It selects
/// how the provider interprets the opaque device handle; the wrapper
/// never interprets the handle itself.
#[derive(Clone, Copy, Debug, PartialEq, Eq, Structural)]
pub enum DeviceType {
    /// A CUDA context.
    Cuda,
    /// A DirectX device.
    DirectX,
    /// An OpenGL context.
    OpenGL,
}

/// The provider's integer encoding of a device type.
pub open spec fn spec_device_type_raw(device_type: DeviceType) -> u32 {
    match device_type {
        DeviceType::DirectX => 0,
        DeviceType::Cuda => 1,
        DeviceType::OpenGL => 2,
    }
}

/// Encodes a device type as the provider's integer value.
pub fn device_type_raw(device_type: DeviceType) -> (r: u32)
    ensures
        r == spec_device_type_raw(device_type),
{
    match device_type {
        DeviceType::DirectX => 0,
        DeviceType::Cuda => 1,
        DeviceType::OpenGL => 2,
    }
}

/// Data format of an input or output buffer. A closed set with an
/// explicit `Undefined` variant so that the mapping from the provider's
/// integers is total.
#[derive(Clone, Copy, Debug, PartialEq, Eq, Structural)]
pub enum BufferFormat {
    /// Unknown or unset layout; also what every unrecognized provider
    /// integer maps to.
    Undefined,
    /// Semi-planar YUV 4:2:0.
    NV12,
    /// Planar YUV 4:2:0 with V before U.
    YV12,
    /// Planar YUV 4:2:0 with U before V.
    IYUV,
    /// Planar YUV 4:4:4.
    YUV444,
    /// Planar YUV 4:4:4, 10 bits per component.
    YUV444_10Bit,
    /// Planar YUV 4:2:0, 10 bits per component.
    YUV420_10Bit,
    /// Packed 8-bit ARGB.
    ARGB,
    /// Packed 10-bit ARGB.
    ARGB10,
    /// Packed 8-bit ABGR.
    ABGR,
    /// Packed 8-bit AYUV.
    AYUV,
    /// Packed 10-bit ABGR.
    ABGR10,
    /// Raw bytes.
    U8,
}

/// The provider's integer encoding of a buffer format.
pub open spec fn spec_format_raw(format: BufferFormat) -> u32 {
    match format {
        BufferFormat::Undefined => 0,
        BufferFormat::NV12 => RAW_FORMAT_NV12,
        BufferFormat::YV12 => RAW_FORMAT_YV12,
        BufferFormat::IYUV => RAW_FORMAT_IYUV,
        BufferFormat::YUV444 => RAW_FORMAT_YUV444,
        BufferFormat::YUV420_10Bit => RAW_FORMAT_YUV420_10BIT,
        BufferFormat::YUV444_10Bit => RAW_FORMAT_YUV444_10BIT,
        BufferFormat::ARGB => RAW_FORMAT_ARGB,
        BufferFormat::ARGB10 => RAW_FORMAT_ARGB10,
        BufferFormat::AYUV => RAW_FORMAT_AYUV,
        BufferFormat::ABGR => RAW_FORMAT_ABGR,
        BufferFormat::ABGR10 => RAW_FORMAT_ABGR10,
        BufferFormat::U8 => RAW_FORMAT_U8,
    }
}

/// Total decoding of a provider integer: a value outside the known set
/// yields `Undefined`.
pub open spec fn spec_format_from_raw(raw: u32) -> BufferFormat {
    if raw == RAW_FORMAT_NV12 {
        BufferFormat::NV12
    } else if raw == RAW_FORMAT_YV12 {
        BufferFormat::YV12
    } else if raw == RAW_FORMAT_IYUV {
        BufferFormat::IYUV
    } else if raw == RAW_FORMAT_YUV444 {
        BufferFormat::YUV444
    } else if raw == RAW_FORMAT_YUV420_10BIT {
        BufferFormat::YUV420_10Bit
    } else if raw == RAW_FORMAT_YUV444_10BIT {
        BufferFormat::YUV444_10Bit
    } else if raw == RAW_FORMAT_ARGB {
        BufferFormat::ARGB
    } else if raw == RAW_FORMAT_ARGB10 {
        BufferFormat::ARGB10
    } else if raw == RAW_FORMAT_AYUV {
        BufferFormat::AYUV
    } else if raw == RAW_FORMAT_ABGR {
        BufferFormat::ABGR
    } else if raw == RAW_FORMAT_ABGR10 {
        BufferFormat::ABGR10
    } else if raw == RAW_FORMAT_U8 {
        BufferFormat::U8
    } else {
        BufferFormat::Undefined
    }
}

/// Encodes a buffer format as the provider's integer value.
pub fn format_raw(format: BufferFormat) -> (r: u32)
    ensures
        r == spec_format_raw(format),
{
    match format {
        BufferFormat::Undefined => 0,
        BufferFormat::NV12 => RAW_FORMAT_NV12,
        BufferFormat::YV12 => RAW_FORMAT_YV12,
        BufferFormat::IYUV => RAW_FORMAT_IYUV,
        BufferFormat::YUV444 => RAW_FORMAT_YUV444,
        BufferFormat::YUV420_10Bit => RAW_FORMAT_YUV420_10BIT,
        BufferFormat::YUV444_10Bit => RAW_FORMAT_YUV444_10BIT,
        BufferFormat::ARGB => RAW_FORMAT_ARGB,
        BufferFormat::ARGB10 => RAW_FORMAT_ARGB10,
        BufferFormat::AYUV => RAW_FORMAT_AYUV,
        BufferFormat::ABGR => RAW_FORMAT_ABGR,
        BufferFormat::ABGR10 => RAW_FORMAT_ABGR10,
        BufferFormat::U8 => RAW_FORMAT_U8,
    }
}

/// Decodes a provider integer into a buffer format, totally: an
/// unrecognized value yields `Undefined`, never a failure.
pub fn format_from_raw(raw: u32) -> (r: BufferFormat)
    ensures
        r == spec_format_from_raw(raw),
{
    if raw == RAW_FORMAT_NV12 {
        BufferFormat::NV12
    } else if raw == RAW_FORMAT_YV12 {
        BufferFormat::YV12
    } else if raw == RAW_FORMAT_IYUV {
        BufferFormat::IYUV
    } else if raw == RAW_FORMAT_YUV444 {
        BufferFormat::YUV444
    } else if raw == RAW_FORMAT_YUV420_10BIT {
        BufferFormat::YUV420_10Bit
    } else if raw == RAW_FORMAT_YUV444_10BIT {
        BufferFormat::YUV444_10Bit
    } else if raw == RAW_FORMAT_ARGB {
        BufferFormat::ARGB
    } else if raw == RAW_FORMAT_ARGB10 {
        BufferFormat::ARGB10
    } else if raw == RAW_FORMAT_AYUV {
        BufferFormat::AYUV
    } else if raw == RAW_FORMAT_ABGR {
        BufferFormat::ABGR
    } else if raw == RAW_FORMAT_ABGR10 {
        BufferFormat::ABGR10
    } else if raw == RAW_FORMAT_U8 {
        BufferFormat::U8
    } else {
        BufferFormat::Undefined
    }
}

/// Every format round-trips losslessly through the provider's integer
/// encoding.
pub proof fn lemma_format_round_trip(format: BufferFormat)
    ensures
        spec_format_from_raw(spec_format_raw(format)) == format,
{
}

/// Decoding an integer and re-encoding it reproduces the integer for
/// every value in the known set; everything else decodes to
/// `Undefined`.
pub proof fn lemma_raw_format_round_trip(raw: u32)
    ensures
        spec_format_from_raw(raw) != BufferFormat::Undefined ==> spec_format_raw(
            spec_format_from_raw(raw),
        ) == raw,
        raw == 0 ==> spec_format_from_raw(raw) == BufferFormat::Undefined,
{
}

} // verus!
