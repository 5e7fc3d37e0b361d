//! The session lifecycle, enumeration trust rules, and the buffer
//! lock/unlock protocol, driven with provider outcomes written out by
//! hand.

use nvenc::api::Api;
use nvenc::api::EntryPoints;
use nvenc::format::BufferFormat;
use nvenc::format::DeviceType;
use nvenc::guid::Guid;
use nvenc::guid::guid_list_contains;
use nvenc::params::InitParamsBuilder;
use nvenc::session::CountReply;
use nvenc::session::Encoder;
use nvenc::session::FormatListReply;
use nvenc::session::GuidListReply;
use nvenc::status::Error;
use nvenc::version::CONFIG_VER;
use nvenc::version::PRESET_CONFIG_VER;

fn full_table() -> EntryPoints {
    EntryPoints {
        open_encode_session: true,
        encode_guid_count: true,
        encode_guids: true,
        encode_preset_count: true,
        encode_preset_guids: true,
        input_format_count: true,
        input_formats: true,
        encode_preset_config: true,
        initialize_encoder: true,
        create_input_buffer: true,
        lock_input_buffer: true,
        unlock_input_buffer: true,
        create_bitstream_buffer: true,
        lock_bitstream: true,
        unlock_bitstream: true,
        encode_picture: true,
        destroy_encoder: true,
    }
}

fn api() -> Api {
    Api::init(0, full_table()).unwrap()
}

fn h264_guid() -> Guid {
    Guid {
        data1: 0x6bc82762,
        data2: 0x4e63,
        data3: 0x4ca4,
        data4: [0xaa, 0x85, 0x1e, 0x50, 0xf3, 0x21, 0xf6, 0xbf],
    }
}

fn other_guid() -> Guid {
    Guid { data1: 0x790cdc88, data2: 0x4522, data3: 0x4d7b, data4: [0x94, 0x25, 0xbd, 0xa9, 0x97, 0x5f, 0x76, 0x03] }
}

fn initialized_session() -> Encoder {
    let mut session = Encoder::new(DeviceType::Cuda, api(), 0, 0x1000).unwrap();
    let params = InitParamsBuilder::new(h264_guid()).width(1280).height(720).framerate(30, 1).build();
    session.initialize(&params, 0).unwrap();
    session
}

#[test]
fn api_create_instance() {
    assert!(Api::init(0, full_table()).is_ok())
}

#[test]
fn session_create() {
    assert!(Encoder::new(DeviceType::Cuda, api(), 0, 0x1000).is_ok())
}

#[test]
fn h264() {
    let session = Encoder::new(DeviceType::Cuda, api(), 0, 0x1000).unwrap();
    let count = CountReply { status: 0, count: 2 };
    let list = GuidListReply { status: 0, returned: 2, items: vec![other_guid(), h264_guid()] };
    let supported = session.support_codec(h264_guid(), &count, list);
    assert!(supported.is_ok());
    assert!(supported.unwrap())
}

#[test]
fn open_rejected_by_provider_surfaces_the_device_errors() {
    assert_eq!(
        Encoder::new(DeviceType::Cuda, api(), 3, 0).err(),
        Some(Error::InvalidEncodeDevice)
    );
    assert_eq!(Encoder::new(DeviceType::Cuda, api(), 5, 0).err(), Some(Error::DeviceNotExist));
}

#[test]
fn open_without_entry_point_is_uninitialized() {
    let table = EntryPoints { open_encode_session: false, ..full_table() };
    let api = Api::init(0, table).unwrap();
    assert_eq!(Encoder::new(DeviceType::Cuda, api, 0, 0).err(), Some(Error::Uninitialized));
}

#[test]
fn missing_codec_is_false_not_an_error() {
    let session = Encoder::new(DeviceType::Cuda, api(), 0, 0x1000).unwrap();
    let count = CountReply { status: 0, count: 1 };
    let list = GuidListReply { status: 0, returned: 1, items: vec![other_guid()] };
    assert_eq!(session.support_codec(h264_guid(), &count, list), Ok(false));
}

#[test]
fn enumeration_tolerates_fewer_returned_than_counted() {
    let session = Encoder::new(DeviceType::Cuda, api(), 0, 0x1000).unwrap();
    let count = CountReply { status: 0, count: 5 };
    let list = GuidListReply { status: 0, returned: 1, items: vec![h264_guid()] };
    let presets = session.supported_presets(h264_guid(), &count, list).unwrap();
    assert_eq!(presets.len(), 1);
    assert_eq!(presets[0], h264_guid());
}

#[test]
fn empty_enumeration_is_a_valid_answer() {
    let session = Encoder::new(DeviceType::Cuda, api(), 0, 0x1000).unwrap();
    let count = CountReply { status: 0, count: 0 };
    let list = GuidListReply { status: 0, returned: 0, items: vec![] };
    assert_eq!(session.supported_presets(h264_guid(), &count, list), Ok(vec![]));

    let count = CountReply { status: 0, count: 0 };
    let list = GuidListReply { status: 0, returned: 0, items: vec![] };
    assert_eq!(session.support_codec(h264_guid(), &count, list), Ok(false));
}

#[test]
fn enumeration_fails_when_returned_exceeds_requested() {
    let session = Encoder::new(DeviceType::Cuda, api(), 0, 0x1000).unwrap();
    let count = CountReply { status: 0, count: 1 };
    let list = GuidListReply {
        status: 0,
        returned: 2,
        items: vec![h264_guid(), other_guid()],
    };
    assert_eq!(session.supported_presets(h264_guid(), &count, list), Err(Error::Generic));
}

#[test]
fn enumeration_fails_on_a_malformed_reply() {
    let session = Encoder::new(DeviceType::Cuda, api(), 0, 0x1000).unwrap();
    let count = CountReply { status: 0, count: 3 };
    let list = GuidListReply { status: 0, returned: 2, items: vec![h264_guid()] };
    assert_eq!(session.supported_presets(h264_guid(), &count, list), Err(Error::Generic));
}

#[test]
fn enumeration_propagates_phase_errors() {
    let session = Encoder::new(DeviceType::Cuda, api(), 0, 0x1000).unwrap();
    let failed_count = CountReply { status: 8, count: 0 };
    let list = GuidListReply { status: 0, returned: 0, items: vec![] };
    assert_eq!(
        session.supported_presets(h264_guid(), &failed_count, list),
        Err(Error::InvalidParam)
    );

    let count = CountReply { status: 0, count: 0 };
    let failed_list = GuidListReply { status: 10, returned: 0, items: vec![] };
    assert_eq!(
        session.supported_presets(h264_guid(), &count, failed_list),
        Err(Error::OutOfMemory)
    );
}

#[test]
fn formats_decode_totally_with_undefined_fallback() {
    let session = Encoder::new(DeviceType::Cuda, api(), 0, 0x1000).unwrap();
    let count = CountReply { status: 0, count: 3 };
    let list = FormatListReply { status: 0, returned: 3, items: vec![0x1, 0xdead, 0x10] };
    let formats = session.supported_formats(h264_guid(), &count, list).unwrap();
    assert_eq!(
        formats,
        vec![BufferFormat::NV12, BufferFormat::Undefined, BufferFormat::YV12]
    );
}

#[test]
fn preset_config_is_stamped_before_the_call() {
    let session = Encoder::new(DeviceType::Cuda, api(), 0, 0x1000).unwrap();
    let config = session.preset_config(h264_guid(), other_guid(), 0, 42).unwrap();
    assert_eq!(config.version(), PRESET_CONFIG_VER);
    assert_eq!(config.config_version(), CONFIG_VER);
    assert_eq!(config.token(), 42);
}

#[test]
fn initialize_failure_leaves_the_session_uninitialized() {
    let mut session = Encoder::new(DeviceType::Cuda, api(), 0, 0x1000).unwrap();
    let params = InitParamsBuilder::new(h264_guid()).width(1280).height(720).build();
    assert_eq!(session.initialize(&params, 12), Err(Error::UnsupportedParam));
    assert!(!session.is_initialized());
    assert_eq!(session.initialize(&params, 0), Ok(()));
    assert!(session.is_initialized());
}

#[test]
fn input_lock_view_is_width_times_height() {
    let session = initialized_session();
    let mut buffer = session.alloc_input_buffer(1920, 1080, BufferFormat::NV12, 0, 0x2000).unwrap();
    assert_eq!(buffer.width(), 1920);
    assert_eq!(buffer.height(), 1080);
    assert_eq!(buffer.format(), BufferFormat::NV12);
    assert!(!buffer.is_locked());
    let len = session.input_buffer_lock(&mut buffer, 0).unwrap();
    assert_eq!(len, 1920 * 1080);
    assert!(buffer.is_locked());
}

#[test]
fn locking_a_locked_buffer_is_rejected() {
    let session = initialized_session();
    let mut buffer = session.alloc_input_buffer(64, 64, BufferFormat::NV12, 0, 0x2000).unwrap();
    assert!(session.input_buffer_lock(&mut buffer, 0).is_ok());
    assert_eq!(session.input_buffer_lock(&mut buffer, 0), Err(Error::InvalidParam));
    assert!(buffer.is_locked());
}

#[test]
fn double_unlock_is_surfaced_not_ignored() {
    let session = initialized_session();
    let mut buffer = session.alloc_input_buffer(64, 64, BufferFormat::NV12, 0, 0x2000).unwrap();
    assert!(session.input_buffer_lock(&mut buffer, 0).is_ok());
    assert_eq!(session.input_buffer_unlock(&mut buffer, 0), Ok(()));
    assert_eq!(session.input_buffer_unlock(&mut buffer, 0), Err(Error::InvalidParam));
}

#[test]
fn encode_with_a_locked_input_is_rejected() {
    let session = initialized_session();
    let mut input = session.alloc_input_buffer(64, 64, BufferFormat::NV12, 0, 0x2000).unwrap();
    let output = session.alloc_output_buffer(0, 0x3000).unwrap();
    assert!(session.input_buffer_lock(&mut input, 0).is_ok());
    assert_eq!(session.encode(&input, &output, 0), Err(Error::InvalidParam));
}

#[test]
fn one_frame_end_to_end() {
    let session = initialized_session();
    let mut input = session.alloc_input_buffer(1280, 720, BufferFormat::NV12, 0, 0x2000).unwrap();
    let mut output = session.alloc_output_buffer(0, 0x3000).unwrap();

    let len = session.input_buffer_lock(&mut input, 0).unwrap();
    assert_eq!(len, 1280 * 720);
    assert_eq!(session.input_buffer_unlock(&mut input, 0), Ok(()));

    assert_eq!(session.encode(&input, &output, 0), Ok(()));

    let bitstream_len = session.output_buffer_lock(&mut output, 0, 9000).unwrap();
    assert!(bitstream_len > 0);
    assert_eq!(bitstream_len, 9000);
    assert_eq!(session.output_buffer_unlock(&mut output, 0), Ok(()));

    assert_eq!(session.destroy(0), None);
}

#[test]
fn locks_on_different_buffers_may_overlap() {
    let session = initialized_session();
    let mut a = session.alloc_input_buffer(64, 64, BufferFormat::NV12, 0, 0x2000).unwrap();
    let mut b = session.alloc_input_buffer(64, 64, BufferFormat::NV12, 0, 0x2100).unwrap();
    assert!(session.input_buffer_lock(&mut a, 0).is_ok());
    assert!(session.input_buffer_lock(&mut b, 0).is_ok());
    assert!(session.input_buffer_unlock(&mut b, 0).is_ok());
    assert!(session.input_buffer_unlock(&mut a, 0).is_ok());
}

#[test]
fn provider_lock_failure_leaves_the_buffer_unlocked() {
    let session = initialized_session();
    let mut buffer = session.alloc_input_buffer(64, 64, BufferFormat::NV12, 0, 0x2000).unwrap();
    assert_eq!(session.input_buffer_lock(&mut buffer, 6), Err(Error::InvalidPointer));
    assert!(!buffer.is_locked());
}

#[test]
fn alloc_without_entry_point_is_uninitialized() {
    let table = EntryPoints { create_input_buffer: false, ..full_table() };
    let api = Api::init(0, table).unwrap();
    let mut session = Encoder::new(DeviceType::Cuda, api, 0, 0x1000).unwrap();
    let params = InitParamsBuilder::new(h264_guid()).build();
    session.initialize(&params, 0).unwrap();
    assert_eq!(
        session.alloc_input_buffer(64, 64, BufferFormat::NV12, 0, 0).err(),
        Some(Error::Uninitialized)
    );
}

#[test]
fn format_enumeration_without_entry_points_is_uninitialized() {
    let table = EntryPoints { input_format_count: false, ..full_table() };
    let api = Api::init(0, table).unwrap();
    let session = Encoder::new(DeviceType::Cuda, api, 0, 0x1000).unwrap();
    let count = CountReply { status: 0, count: 0 };
    let list = FormatListReply { status: 0, returned: 0, items: vec![] };
    assert_eq!(
        session.supported_formats(h264_guid(), &count, list),
        Err(Error::Uninitialized)
    );
}

#[test]
fn teardown_without_entry_point_reports_uninitialized() {
    let table = EntryPoints { destroy_encoder: false, ..full_table() };
    let api = Api::init(0, table).unwrap();
    let session = Encoder::new(DeviceType::Cuda, api, 0, 0x1000).unwrap();
    assert_eq!(session.destroy(0), Some(Error::Uninitialized));
}

#[test]
fn teardown_reports_but_never_raises() {
    let session = initialized_session();
    assert_eq!(session.destroy(20), Some(Error::Generic));
    let session = initialized_session();
    assert_eq!(session.destroy(0), None);
}

#[test]
fn guid_membership_is_structural() {
    let list = vec![h264_guid(), other_guid()];
    assert!(guid_list_contains(&list, &h264_guid()));
    let mut tweaked = h264_guid();
    tweaked.data4[7] = 0xbe;
    assert!(!guid_list_contains(&list, &tweaked));
}
