//! Status mapping: total, closed, with `Unknown` as the catch-all.

use nvenc::status::Error;
use nvenc::status::error_from_status;
use nvenc::status::dispatch;

#[test]
fn known_statuses_map_exactly() {
    assert_eq!(error_from_status(0), Error::Uninitialized);
    assert_eq!(error_from_status(3), Error::InvalidEncodeDevice);
    assert_eq!(error_from_status(5), Error::DeviceNotExist);
    assert_eq!(error_from_status(6), Error::InvalidPointer);
    assert_eq!(error_from_status(8), Error::InvalidParam);
    assert_eq!(error_from_status(10), Error::OutOfMemory);
    assert_eq!(error_from_status(12), Error::UnsupportedParam);
    assert_eq!(error_from_status(15), Error::InvalidVersion);
    assert_eq!(error_from_status(20), Error::Generic);
}

#[test]
fn unrecognized_statuses_map_to_unknown() {
    let samples: Vec<u32> = vec![1, 2, 4, 7, 9, 11, 13, 14, 16, 17, 18, 19, 21, 99, 4096, u32::MAX];
    for status in samples {
        assert_eq!(error_from_status(status), Error::Unknown);
    }
}

#[test]
fn dispatch_rule() {
    assert_eq!(dispatch(false, 0), Err(Error::Uninitialized));
    assert_eq!(dispatch(false, 20), Err(Error::Uninitialized));
    assert_eq!(dispatch(true, 0), Ok(()));
    assert_eq!(dispatch(true, 15), Err(Error::InvalidVersion));
    assert_eq!(dispatch(true, 12345), Err(Error::Unknown));
}
