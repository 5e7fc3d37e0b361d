//! Version splitting and re-packing, and the maximum-supported-version
//! query interpretation.

use nvenc::status::Error;
use nvenc::version::Version;
use nvenc::version::decompose_version;
use nvenc::version::pack_version;
use nvenc::version::max_version_supported;
use nvenc::version::API_VERSION;
use nvenc::version::API_MAJOR_VERSION;
use nvenc::version::API_MINOR_VERSION;

#[test]
fn version_check() {
    assert!(max_version_supported(0, (9 << 4) | 0).is_ok());
}

#[test]
fn decompose_splits_the_driver_layout() {
    assert_eq!(decompose_version(0x95), Version { major: 9, minor: 5 });
    assert_eq!(decompose_version(0x00), Version { major: 0, minor: 0 });
    assert_eq!(decompose_version(0xaf), Version { major: 10, minor: 15 });
}

#[test]
fn pack_round_trips_for_all_layout_shapes() {
    let samples: Vec<u32> = vec![0, 1, 0x95, 0xaf, 0x1234, 0xffff_ffff, 0x8000_0000];
    for value in samples {
        assert_eq!(pack_version(decompose_version(value)), value);
    }
}

#[test]
fn failed_query_maps_the_status() {
    assert_eq!(max_version_supported(20, 0x95), Err(Error::Generic));
    assert_eq!(max_version_supported(999, 0x95), Err(Error::Unknown));
}

#[test]
fn api_version_packs_major_low_minor_high() {
    assert_eq!(API_VERSION, API_MAJOR_VERSION | (API_MINOR_VERSION << 24));
}
