//! Assembly of the initialization descriptor.

use nvenc::guid::Guid;
use nvenc::params::InitParamsBuilder;
use nvenc::version::INITIALIZE_PARAMS_VER;

fn codec() -> Guid {
    Guid { data1: 0x6bc82762, data2: 0x4e63, data3: 0x4ca4, data4: [0xaa, 0x85, 0x1e, 0x50, 0xf3, 0x21, 0xf6, 0xbf] }
}

#[test]
fn new_builder_starts_stamped_and_zeroed() {
    let params = InitParamsBuilder::new(codec()).build();
    assert_eq!(params.version(), INITIALIZE_PARAMS_VER);
    assert_eq!(params.encode_guid(), codec());
    assert_eq!(params.width(), 0);
    assert_eq!(params.height(), 0);
    assert_eq!(params.dar_width(), 0);
    assert_eq!(params.dar_height(), 0);
    assert_eq!(params.max_width(), 0);
    assert_eq!(params.max_height(), 0);
    assert_eq!(params.preset_guid(), Guid { data1: 0, data2: 0, data3: 0, data4: [0; 8] });
    assert!(params.preset_config().is_none());
    assert_eq!(params.framerate_num(), 0);
    assert_eq!(params.framerate_den(), 0);
    assert!(!params.enable_ptd());
}

#[test]
fn each_setter_replaces_exactly_its_field() {
    let preset = Guid { data1: 7, data2: 7, data3: 7, data4: [7; 8] };
    let params = InitParamsBuilder::new(codec())
        .width(1280)
        .height(720)
        .dar_width(16)
        .dar_height(9)
        .max_width(1920)
        .max_height(1080)
        .preset_guid(preset)
        .framerate(30, 1)
        .ptd(true)
        .build();
    assert_eq!(params.version(), INITIALIZE_PARAMS_VER);
    assert_eq!(params.encode_guid(), codec());
    assert_eq!(params.width(), 1280);
    assert_eq!(params.height(), 720);
    assert_eq!(params.dar_width(), 16);
    assert_eq!(params.dar_height(), 9);
    assert_eq!(params.max_width(), 1920);
    assert_eq!(params.max_height(), 1080);
    assert_eq!(params.preset_guid(), preset);
    assert_eq!(params.framerate_num(), 30);
    assert_eq!(params.framerate_den(), 1);
    assert!(params.enable_ptd());
}

#[test]
fn later_width_wins() {
    let params = InitParamsBuilder::new(codec()).width(640).width(1280).build();
    assert_eq!(params.width(), 1280);
}
