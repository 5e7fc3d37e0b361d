//! Buffer-format and device-type integer encodings.

use nvenc::format::BufferFormat;
use nvenc::format::DeviceType;
use nvenc::format::format_raw;
use nvenc::format::format_from_raw;
use nvenc::format::device_type_raw;

#[test]
fn formats_round_trip_losslessly() {
    let formats: Vec<BufferFormat> = vec![
        BufferFormat::Undefined,
        BufferFormat::NV12,
        BufferFormat::YV12,
        BufferFormat::IYUV,
        BufferFormat::YUV444,
        BufferFormat::YUV444_10Bit,
        BufferFormat::YUV420_10Bit,
        BufferFormat::ARGB,
        BufferFormat::ARGB10,
        BufferFormat::ABGR,
        BufferFormat::AYUV,
        BufferFormat::ABGR10,
        BufferFormat::U8,
    ];
    for format in formats {
        assert_eq!(format_from_raw(format_raw(format)), format);
    }
}

#[test]
fn known_raw_values() {
    assert_eq!(format_raw(BufferFormat::Undefined), 0);
    assert_eq!(format_raw(BufferFormat::NV12), 0x1);
    assert_eq!(format_raw(BufferFormat::YV12), 0x10);
    assert_eq!(format_raw(BufferFormat::IYUV), 0x100);
    assert_eq!(format_raw(BufferFormat::YUV444), 0x1000);
    assert_eq!(format_raw(BufferFormat::YUV420_10Bit), 0x10000);
    assert_eq!(format_raw(BufferFormat::YUV444_10Bit), 0x100000);
    assert_eq!(format_raw(BufferFormat::ARGB), 0x1000000);
    assert_eq!(format_raw(BufferFormat::ARGB10), 0x2000000);
    assert_eq!(format_raw(BufferFormat::AYUV), 0x4000000);
    assert_eq!(format_raw(BufferFormat::ABGR), 0x10000000);
    assert_eq!(format_raw(BufferFormat::ABGR10), 0x20000000);
    assert_eq!(format_raw(BufferFormat::U8), 0x40000000);
}

#[test]
fn unrecognized_raw_decodes_to_undefined() {
    let samples: Vec<u32> = vec![2, 3, 0x11, 0x101, 0x12345, 0x7fff_ffff, u32::MAX];
    for raw in samples {
        assert_eq!(format_from_raw(raw), BufferFormat::Undefined);
    }
}

#[test]
fn device_type_raw_values() {
    assert_eq!(device_type_raw(DeviceType::DirectX), 0);
    assert_eq!(device_type_raw(DeviceType::Cuda), 1);
    assert_eq!(device_type_raw(DeviceType::OpenGL), 2);
}
