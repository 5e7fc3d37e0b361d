//! The encoder session: lifecycle, capability enumeration, buffer
//! ownership and the lock/unlock protocol.
//!
//! A session is opened against a device, optionally queried for its
//! capabilities, initialized once, and then used to allocate buffers
//! and submit frames. The provider performs the real work; its reply to
//! each round trip enters here as plain values, and everything the
//! wrapper decides about them is verified:
//!
//! - the single dispatch rule (absent entry point, then status mapping)
//!   governs every call;
//! - enumeration trusts only the second-phase returned count, bounded
//!   by the first-phase capacity, and fails on a provider that exceeds
//!   it;
//! - buffer allocation and frame submission demand an initialized
//!   session, and a buffer stays usable only with the session it was
//!   allocated from;
//! - a lock is exclusive: locking a locked buffer, unlocking an
//!   unlocked one, or submitting a still-locked input is rejected by
//!   the wrapper before the provider is approached.

use vstd::prelude::*;

use crate::api::Api;
use crate::api::EntryPoints;
use crate::format::BufferFormat;
use crate::format::DeviceType;
use crate::format::spec_format_from_raw;
use crate::format::format_from_raw;
use crate::guid::Guid;
use crate::guid::guid_list_contains;
use crate::params::InitParams;
use crate::params::PresetConfig;
use crate::status::Error;
use crate::status::STATUS_SUCCESS;
use crate::status::spec_dispatch;
use crate::status::spec_error_from_status;
use crate::status::dispatch;
use crate::version::CONFIG_VER;
use crate::version::PRESET_CONFIG_VER;

verus! {

/// The provider's reply to a first-phase (count) enumeration call.
#[derive(Clone, Copy, Debug)]
pub struct CountReply {
    /// Status of the count call.
    pub status: u32,
    /// How many elements the provider says it can return.
    pub count: u32,
}

/// The provider's reply to a second-phase identifier fetch.
#[derive(Debug)]
pub struct GuidListReply {
    /// Status of the fetch call.
    pub status: u32,
    /// How many elements the provider actually returned.
    pub returned: u32,
    /// The returned elements: exactly the valid prefix of the buffer.
    pub items: Vec<Guid>,
}

/// The provider's reply to a second-phase format fetch, still in the
/// provider's integer encoding.
#[derive(Debug)]
pub struct FormatListReply {
    /// Status of the fetch call.
    pub status: u32,
    /// How many elements the provider actually returned.
    pub returned: u32,
    /// The returned elements: exactly the valid prefix of the buffer.
    pub items: Vec<u32>,
}

/// What the two-phase identifier enumeration yields: the fetched
/// elements, or the first error along the way. The second-phase count
/// is trusted only within the first-phase capacity; a provider that
/// exceeds it, or a reply whose element list does not match its own
/// count, is a provider contract violation and fails the call.
pub open spec fn spec_guid_enumeration(
    count_present: bool,
    list_present: bool,
    count_reply: CountReply,
    list_reply: GuidListReply,
) -> Result<Seq<Guid>, Error> {
    if !count_present {
        Err(Error::Uninitialized)
    } else if count_reply.status != STATUS_SUCCESS {
        Err(spec_error_from_status(count_reply.status))
    } else if !list_present {
        Err(Error::Uninitialized)
    } else if list_reply.status != STATUS_SUCCESS {
        Err(spec_error_from_status(list_reply.status))
    } else if list_reply.returned > count_reply.count {
        Err(Error::Generic)
    } else if list_reply.items@.len() != list_reply.returned {
        Err(Error::Generic)
    } else {
        Ok(list_reply.items@)
    }
}

/// The format analogue of `spec_guid_enumeration`.
pub open spec fn spec_format_enumeration(
    count_present: bool,
    list_present: bool,
    count_reply: CountReply,
    list_reply: FormatListReply,
) -> Result<Seq<u32>, Error> {
    if !count_present {
        Err(Error::Uninitialized)
    } else if count_reply.status != STATUS_SUCCESS {
        Err(spec_error_from_status(count_reply.status))
    } else if !list_present {
        Err(Error::Uninitialized)
    } else if list_reply.status != STATUS_SUCCESS {
        Err(spec_error_from_status(list_reply.status))
    } else if list_reply.returned > count_reply.count {
        Err(Error::Generic)
    } else if list_reply.items@.len() != list_reply.returned {
        Err(Error::Generic)
    } else {
        Ok(list_reply.items@)
    }
}

/// A successful enumeration never yields more elements than the
/// first-phase count offered: the capacity requested in phase two is
/// never exceeded by what phase two is believed to have filled.
pub proof fn lemma_guid_enumeration_bounded(
    count_present: bool,
    list_present: bool,
    count_reply: CountReply,
    list_reply: GuidListReply,
)
    ensures
        spec_guid_enumeration(count_present, list_present, count_reply, list_reply) matches Ok(
            items,
        ) ==> items.len() <= count_reply.count,
{
}

/// The format analogue of `lemma_guid_enumeration_bounded`.
pub proof fn lemma_format_enumeration_bounded(
    count_present: bool,
    list_present: bool,
    count_reply: CountReply,
    list_reply: FormatListReply,
)
    ensures
        spec_format_enumeration(count_present, list_present, count_reply, list_reply) matches Ok(
            items,
        ) ==> items.len() <= count_reply.count,
{
}

/// Runs the checks of `spec_guid_enumeration` on one two-phase reply
/// pair.
fn guid_enumeration(
    count_present: bool,
    list_present: bool,
    count_reply: &CountReply,
    list_reply: GuidListReply,
) -> (r: Result<Vec<Guid>, Error>)
    ensures
        r matches Ok(v) ==> spec_guid_enumeration(
            count_present,
            list_present,
            *count_reply,
            list_reply,
        ) == Ok::<Seq<Guid>, Error>(v@),
        r matches Err(e) ==> spec_guid_enumeration(
            count_present,
            list_present,
            *count_reply,
            list_reply,
        ) == Err::<Seq<Guid>, Error>(e),
{
    match dispatch(count_present, count_reply.status) {
        Err(e) => Err(e),
        Ok(()) => match dispatch(list_present, list_reply.status) {
            Err(e) => Err(e),
            Ok(()) => {
                if list_reply.returned > count_reply.count {
                    Err(Error::Generic)
                } else if list_reply.items.len() != list_reply.returned as usize {
                    Err(Error::Generic)
                } else {
                    Ok(list_reply.items)
                }
            },
        },
    }
}

/// The format analogue of `guid_enumeration`.
fn format_enumeration(
    count_present: bool,
    list_present: bool,
    count_reply: &CountReply,
    list_reply: FormatListReply,
) -> (r: Result<Vec<u32>, Error>)
    ensures
        r matches Ok(v) ==> spec_format_enumeration(
            count_present,
            list_present,
            *count_reply,
            list_reply,
        ) == Ok::<Seq<u32>, Error>(v@),
        r matches Err(e) ==> spec_format_enumeration(
            count_present,
            list_present,
            *count_reply,
            list_reply,
        ) == Err::<Seq<u32>, Error>(e),
{
    match dispatch(count_present, count_reply.status) {
        Err(e) => Err(e),
        Ok(()) => match dispatch(list_present, list_reply.status) {
            Err(e) => Err(e),
            Ok(()) => {
                if list_reply.returned > count_reply.count {
                    Err(Error::Generic)
                } else if list_reply.items.len() != list_reply.returned as usize {
                    Err(Error::Generic)
                } else {
                    Ok(list_reply.items)
                }
            },
        },
    }
}

/// The plain record an input buffer abstracts to.
pub struct InputBufferData {
    /// Handle of the session the buffer was allocated from.
    pub session: u64,
    /// Opaque token naming the provider-side surface.
    pub token: u64,
    /// Width copied at allocation time.
    pub width: u32,
    /// Height copied at allocation time.
    pub height: u32,
    /// Format copied at allocation time.
    pub format: BufferFormat,
    /// Whether the buffer is currently locked by the caller.
    pub locked: bool,
}

/// A provider-allocated picture surface, owned by the wrapper from
/// successful allocation on. It carries the geometry it was requested
/// with, because later operations need it and the provider does not
/// return it at lock time.
#[derive(Debug)]
pub struct InputBuffer {
    session: u64,
    token: u64,
    width: u32,
    height: u32,
    format: BufferFormat,
    locked: bool,
}

impl View for InputBuffer {
    type V = InputBufferData;

    closed spec fn view(&self) -> InputBufferData {
        InputBufferData {
            session: self.session,
            token: self.token,
            width: self.width,
            height: self.height,
            format: self.format,
            locked: self.locked,
        }
    }
}

impl InputBuffer {
    /// Opaque token naming the provider-side surface.
    pub fn token(&self) -> (r: u64)
        ensures
            r == self@.token,
    {
        self.token
    }

    /// Handle of the session the buffer was allocated from.
    pub fn session(&self) -> (r: u64)
        ensures
            r == self@.session,
    {
        self.session
    }

    /// Width copied at allocation time.
    pub fn width(&self) -> (r: u32)
        ensures
            r == self@.width,
    {
        self.width
    }

    /// Height copied at allocation time.
    pub fn height(&self) -> (r: u32)
        ensures
            r == self@.height,
    {
        self.height
    }

    /// Format copied at allocation time.
    pub fn format(&self) -> (r: BufferFormat)
        ensures
            r == self@.format,
    {
        self.format
    }

    /// Whether the buffer is currently locked by the caller.
    pub fn is_locked(&self) -> (r: bool)
        ensures
            r == self@.locked,
    {
        self.locked
    }
}

/// The plain record an output buffer abstracts to.
pub struct OutputBufferData {
    /// Handle of the session the buffer was allocated from.
    pub session: u64,
    /// Opaque token naming the provider-side bitstream buffer.
    pub token: u64,
    /// Whether the buffer is currently locked by the caller.
    pub locked: bool,
}

/// A provider-allocated bitstream buffer; opaque, with the same
/// lifecycle shape as an input buffer.
#[derive(Debug)]
pub struct OutputBuffer {
    session: u64,
    token: u64,
    locked: bool,
}

impl View for OutputBuffer {
    type V = OutputBufferData;

    closed spec fn view(&self) -> OutputBufferData {
        OutputBufferData { session: self.session, token: self.token, locked: self.locked }
    }
}

impl OutputBuffer {
    /// Opaque token naming the provider-side bitstream buffer.
    pub fn token(&self) -> (r: u64)
        ensures
            r == self@.token,
    {
        self.token
    }

    /// Handle of the session the buffer was allocated from.
    pub fn session(&self) -> (r: u64)
        ensures
            r == self@.session,
    {
        self.session
    }

    /// Whether the buffer is currently locked by the caller.
    pub fn is_locked(&self) -> (r: bool)
        ensures
            r == self@.locked,
    {
        self.locked
    }
}

/// The plain record a session abstracts to.
pub struct EncoderData {
    /// Presence of each entry point of the session's API handle.
    pub entries: EntryPoints,
    /// The device kind the session was opened against.
    pub device_type: DeviceType,
    /// The provider's opaque encoder context handle.
    pub handle: u64,
    /// Whether `initialize` has completed successfully.
    pub initialized: bool,
}

/// An encoder session: one API handle, one opaque encoder context, and
/// the point the lifecycle has reached. The lifecycle runs
/// open → initialize → (allocate, lock, encode)* → destroy; operations
/// that demand an initialized session state that in their contract, so
/// an out-of-order call is unprovable rather than undefined.
#[derive(Debug)]
pub struct Encoder {
    api: Api,
    device_type: DeviceType,
    handle: u64,
    initialized: bool,
}

impl View for Encoder {
    type V = EncoderData;

    closed spec fn view(&self) -> EncoderData {
        EncoderData {
            entries: self.api.spec_entries(),
            device_type: self.device_type,
            handle: self.handle,
            initialized: self.initialized,
        }
    }
}

impl Encoder {
    /// Interprets the provider's reply to a session-open call: with the
    /// open entry point absent no session exists and the reply is
    /// ignored; otherwise a zero status yields a session owning the
    /// returned context handle, not yet initialized, and any other
    /// status maps onto the error taxonomy.
    pub fn new(device_type: DeviceType, api: Api, status: u32, handle: u64) -> (r: Result<
        Encoder,
        Error,
    >)
        ensures
            spec_dispatch(api.spec_entries().open_encode_session, status) matches Err(e) ==> r
                == Err::<Encoder, Error>(e),
            spec_dispatch(api.spec_entries().open_encode_session, status) is Ok ==> (r matches Ok(
                enc,
            ) && enc@ == (EncoderData {
                entries: api.spec_entries(),
                device_type,
                handle,
                initialized: false,
            })),
    {
        match dispatch(api.entries().open_encode_session, status) {
            Err(e) => Err(e),
            Ok(()) => Ok(Encoder { api, device_type, handle, initialized: false }),
        }
    }

    /// The session's API handle.
    pub fn api(&self) -> (r: &Api)
        ensures
            r.spec_entries() == self@.entries,
    {
        &self.api
    }

    /// The provider's opaque encoder context handle.
    pub fn handle(&self) -> (r: u64)
        ensures
            r == self@.handle,
    {
        self.handle
    }

    /// The device kind the session was opened against.
    pub fn device_type(&self) -> (r: DeviceType)
        ensures
            r == self@.device_type,
    {
        self.device_type
    }

    /// Whether `initialize` has completed successfully.
    pub fn is_initialized(&self) -> (r: bool)
        ensures
            r == self@.initialized,
    {
        self.initialized
    }

    /// Whether the session's list of supported codecs contains the
    /// given identifier. Two-phase: the replies to the count call and
    /// to the fetch call enter as values; an identifier missing from a
    /// successfully fetched list yields `Ok(false)`, not an error.
    pub fn support_codec(
        &self,
        guid: Guid,
        count_reply: &CountReply,
        list_reply: GuidListReply,
    ) -> (r: Result<bool, Error>)
        ensures
            r matches Ok(supported) ==> (spec_guid_enumeration(
                self@.entries.encode_guid_count,
                self@.entries.encode_guids,
                *count_reply,
                list_reply,
            ) matches Ok(items) && supported == items.contains(guid)),
            r matches Err(e) ==> spec_guid_enumeration(
                self@.entries.encode_guid_count,
                self@.entries.encode_guids,
                *count_reply,
                list_reply,
            ) == Err::<Seq<Guid>, Error>(e),
    {
        let entries = self.api.entries();
        match guid_enumeration(entries.encode_guid_count, entries.encode_guids, count_reply, list_reply) {
            Err(e) => Err(e),
            Ok(items) => Ok(guid_list_contains(&items, &guid)),
        }
    }

    /// The presets the session supports for one codec. Two-phase, with
    /// the same trust rule as every enumeration: only the second-phase
    /// returned count, bounded by the first-phase capacity, delimits
    /// the valid elements.
    pub fn supported_presets(
        &self,
        encode: Guid,
        count_reply: &CountReply,
        list_reply: GuidListReply,
    ) -> (r: Result<Vec<Guid>, Error>)
        ensures
            r matches Ok(v) ==> spec_guid_enumeration(
                self@.entries.encode_preset_count,
                self@.entries.encode_preset_guids,
                *count_reply,
                list_reply,
            ) == Ok::<Seq<Guid>, Error>(v@),
            r matches Err(e) ==> spec_guid_enumeration(
                self@.entries.encode_preset_count,
                self@.entries.encode_preset_guids,
                *count_reply,
                list_reply,
            ) == Err::<Seq<Guid>, Error>(e),
    {
        let _ = encode;
        let entries = self.api.entries();
        guid_enumeration(
            entries.encode_preset_count,
            entries.encode_preset_guids,
            count_reply,
            list_reply,
        )
    }

    /// The input formats the session supports for one codec, each
    /// decoded totally from the provider's integer encoding: an
    /// unrecognized integer becomes `Undefined`, never a failure.
    pub fn supported_formats(
        &self,
        encode: Guid,
        count_reply: &CountReply,
        list_reply: FormatListReply,
    ) -> (r: Result<Vec<BufferFormat>, Error>)
        ensures
            r matches Ok(v) ==> (spec_format_enumeration(
                self@.entries.input_format_count,
                self@.entries.input_formats,
                *count_reply,
                list_reply,
            ) matches Ok(raws) && v@.len() == raws.len() && (forall|i: int|
                0 <= i < raws.len() ==> v@[i] == spec_format_from_raw(raws[i]))),
            r matches Err(e) ==> spec_format_enumeration(
                self@.entries.input_format_count,
                self@.entries.input_formats,
                *count_reply,
                list_reply,
            ) == Err::<Seq<u32>, Error>(e),
    {
        let _ = encode;
        let entries = self.api.entries();
        match format_enumeration(
            entries.input_format_count,
            entries.input_formats,
            count_reply,
            list_reply,
        ) {
            Err(e) => Err(e),
            Ok(raws) => {
                let mut formats: Vec<BufferFormat> = Vec::new();
                let mut i: usize = 0;
                while i < raws.len()
                    invariant
                        i <= raws@.len(),
                        formats@.len() == i,
                        forall|j: int|
                            0 <= j < i ==> formats@[j] == spec_format_from_raw(raws@[j]),
                    decreases raws@.len() - i,
                {
                    formats.push(format_from_raw(raws[i]));
                    i = i + 1;
                }
                Ok(formats)
            },
        }
    }

    /// Interprets the provider's reply to a preset-configuration query.
    /// On success the returned blob carries the version stamps the
    /// query declared, and the token naming the provider-side value.
    pub fn preset_config(
        &self,
        encode: Guid,
        preset: Guid,
        status: u32,
        token: u64,
    ) -> (r: Result<PresetConfig, Error>)
        ensures
            spec_dispatch(self@.entries.encode_preset_config, status) matches Err(e) ==> r
                == Err::<PresetConfig, Error>(e),
            spec_dispatch(self@.entries.encode_preset_config, status) is Ok ==> (r matches Ok(c)
                && c.spec_version() == PRESET_CONFIG_VER && c.spec_config_version() == CONFIG_VER
                && c.spec_token() == token),
    {
        let _ = encode;
        let _ = preset;
        match dispatch(self.api.entries().encode_preset_config, status) {
            Err(e) => Err(e),
            Ok(()) => Ok(PresetConfig::from_provider(token)),
        }
    }

    /// Finalizes the session's encode parameters. Valid exactly once,
    /// on a session not yet initialized; afterwards buffer allocation
    /// and encoding become valid. The descriptor is only read.
    pub fn initialize(&mut self, init_params: &InitParams, status: u32) -> (r: Result<(), Error>)
        requires
            !old(self)@.initialized,
        ensures
            r == spec_dispatch(old(self)@.entries.initialize_encoder, status),
            r is Ok ==> final(self)@ == (EncoderData { initialized: true, ..old(self)@ }),
            r is Err ==> final(self)@ == old(self)@,
    {
        let _ = init_params;
        match dispatch(self.api.entries().initialize_encoder, status) {
            Err(e) => Err(e),
            Ok(()) => {
                self.initialized = true;
                Ok(())
            },
        }
    }

    /// Interprets the provider's reply to an input-buffer allocation on
    /// an initialized session. On success the wrapper owns a new,
    /// unlocked buffer that records the requested geometry, because the
    /// provider does not return it at lock time.
    pub fn alloc_input_buffer(
        &self,
        width: u32,
        height: u32,
        format: BufferFormat,
        status: u32,
        token: u64,
    ) -> (r: Result<InputBuffer, Error>)
        requires
            self@.initialized,
        ensures
            spec_dispatch(self@.entries.create_input_buffer, status) matches Err(e) ==> r
                == Err::<InputBuffer, Error>(e),
            spec_dispatch(self@.entries.create_input_buffer, status) is Ok ==> (r matches Ok(b)
                && b@ == (InputBufferData {
                session: self@.handle,
                token,
                width,
                height,
                format,
                locked: false,
            })),
    {
        match dispatch(self.api.entries().create_input_buffer, status) {
            Err(e) => Err(e),
            Ok(()) => Ok(
                InputBuffer { session: self.handle, token, width, height, format, locked: false },
            ),
        }
    }

    /// Interprets the provider's reply to a bitstream-buffer allocation
    /// on an initialized session.
    pub fn alloc_output_buffer(&self, status: u32, token: u64) -> (r: Result<OutputBuffer, Error>)
        requires
            self@.initialized,
        ensures
            spec_dispatch(self@.entries.create_bitstream_buffer, status) matches Err(e) ==> r
                == Err::<OutputBuffer, Error>(e),
            spec_dispatch(self@.entries.create_bitstream_buffer, status) is Ok ==> (r matches Ok(b)
                && b@ == (OutputBufferData { session: self@.handle, token, locked: false })),
    {
        match dispatch(self.api.entries().create_bitstream_buffer, status) {
            Err(e) => Err(e),
            Ok(()) => Ok(OutputBuffer { session: self.handle, token, locked: false }),
        }
    }

    /// Takes the exclusive lock on an input buffer. A buffer already
    /// locked is rejected by the wrapper before the provider is
    /// approached: there is never a second concurrent view. On success
    /// the writable view's element count is the buffer's own stored
    /// width times height — never anything the provider reports at lock
    /// time.
    pub fn input_buffer_lock(&self, buffer: &mut InputBuffer, status: u32) -> (r: Result<
        u64,
        Error,
    >)
        requires
            old(buffer)@.session == self@.handle,
        ensures
            old(buffer)@.locked ==> (r == Err::<u64, Error>(Error::InvalidParam) && final(buffer)@
                == old(buffer)@),
            !old(buffer)@.locked ==> (match spec_dispatch(
                self@.entries.lock_input_buffer,
                status,
            ) {
                Err(e) => r == Err::<u64, Error>(e) && final(buffer)@ == old(buffer)@,
                Ok(()) => (r matches Ok(len) && len as int == old(buffer)@.width as int * old(
                    buffer,
                )@.height as int && final(buffer)@ == (InputBufferData {
                    locked: true,
                    ..old(buffer)@
                })),
            }),
    {
        if buffer.locked {
            return Err(Error::InvalidParam);
        }
        match dispatch(self.api.entries().lock_input_buffer, status) {
            Err(e) => Err(e),
            Ok(()) => {
                buffer.locked = true;
                let w: u64 = buffer.width as u64;
                let h: u64 = buffer.height as u64;
                proof {
                    assert(w as int * h as int <= 0xffff_ffff_ffff_ffff) by (nonlinear_arith)
                        requires
                            w <= 0xffff_ffff,
                            h <= 0xffff_ffff,
                    ;
                }
                Ok(w * h)
            },
        }
    }

    /// Releases the exclusive lock on an input buffer. Unlocking a
    /// buffer that is not locked is a caller error and is surfaced, not
    /// silently ignored.
    pub fn input_buffer_unlock(&self, buffer: &mut InputBuffer, status: u32) -> (r: Result<
        (),
        Error,
    >)
        requires
            old(buffer)@.session == self@.handle,
        ensures
            !old(buffer)@.locked ==> (r == Err::<(), Error>(Error::InvalidParam) && final(buffer)@
                == old(buffer)@),
            old(buffer)@.locked ==> (match spec_dispatch(
                self@.entries.unlock_input_buffer,
                status,
            ) {
                Err(e) => r == Err::<(), Error>(e) && final(buffer)@ == old(buffer)@,
                Ok(()) => r is Ok && final(buffer)@ == (InputBufferData {
                    locked: false,
                    ..old(buffer)@
                }),
            }),
    {
        if !buffer.locked {
            return Err(Error::InvalidParam);
        }
        match dispatch(self.api.entries().unlock_input_buffer, status) {
            Err(e) => Err(e),
            Ok(()) => {
                buffer.locked = false;
                Ok(())
            },
        }
    }

    /// Takes the exclusive lock on an output buffer. On success the
    /// result is the valid bitstream length the provider filled in at
    /// lock time — the caller never has to guess it.
    pub fn output_buffer_lock(
        &self,
        buffer: &mut OutputBuffer,
        status: u32,
        bitstream_size: u32,
    ) -> (r: Result<u32, Error>)
        requires
            old(buffer)@.session == self@.handle,
        ensures
            old(buffer)@.locked ==> (r == Err::<u32, Error>(Error::InvalidParam) && final(buffer)@
                == old(buffer)@),
            !old(buffer)@.locked ==> (match spec_dispatch(self@.entries.lock_bitstream, status) {
                Err(e) => r == Err::<u32, Error>(e) && final(buffer)@ == old(buffer)@,
                Ok(()) => r == Ok::<u32, Error>(bitstream_size) && final(buffer)@
                    == (OutputBufferData { locked: true, ..old(buffer)@ }),
            }),
    {
        if buffer.locked {
            return Err(Error::InvalidParam);
        }
        match dispatch(self.api.entries().lock_bitstream, status) {
            Err(e) => Err(e),
            Ok(()) => {
                buffer.locked = true;
                Ok(bitstream_size)
            },
        }
    }

    /// Releases the exclusive lock on an output buffer; unlocking an
    /// unlocked buffer is surfaced as an error.
    pub fn output_buffer_unlock(&self, buffer: &mut OutputBuffer, status: u32) -> (r: Result<
        (),
        Error,
    >)
        requires
            old(buffer)@.session == self@.handle,
        ensures
            !old(buffer)@.locked ==> (r == Err::<(), Error>(Error::InvalidParam) && final(buffer)@
                == old(buffer)@),
            old(buffer)@.locked ==> (match spec_dispatch(self@.entries.unlock_bitstream, status) {
                Err(e) => r == Err::<(), Error>(e) && final(buffer)@ == old(buffer)@,
                Ok(()) => r is Ok && final(buffer)@ == (OutputBufferData {
                    locked: false,
                    ..old(buffer)@
                }),
            }),
    {
        if !buffer.locked {
            return Err(Error::InvalidParam);
        }
        match dispatch(self.api.entries().unlock_bitstream, status) {
            Err(e) => Err(e),
            Ok(()) => {
                buffer.locked = false;
                Ok(())
            },
        }
    }

    /// Submits one frame: one input buffer plus one output buffer, both
    /// allocated from this session. Submission hands the input surface
    /// to the device, so a still-locked input is rejected by the
    /// wrapper before the provider is approached.
    pub fn encode(&self, input: &InputBuffer, output: &OutputBuffer, status: u32) -> (r: Result<
        (),
        Error,
    >)
        requires
            self@.initialized,
            input@.session == self@.handle,
            output@.session == self@.handle,
        ensures
            input@.locked ==> r == Err::<(), Error>(Error::InvalidParam),
            !input@.locked ==> r == spec_dispatch(self@.entries.encode_picture, status),
    {
        if input.is_locked() {
            return Err(Error::InvalidParam);
        }
        let _ = output;
        dispatch(self.api.entries().encode_picture, status)
    }

    /// Tears the session down, consuming it: destruction happens at
    /// most once, and nothing can touch the context afterwards. A
    /// teardown failure is handed back for reporting but cannot fail
    /// the surrounding computation — this is the one deliberately
    /// swallowed error path.
    pub fn destroy(self, status: u32) -> (r: Option<Error>)
        ensures
            match spec_dispatch(self@.entries.destroy_encoder, status) {
                Ok(()) => r is None,
                Err(e) => r == Some(e),
            },
    {
        match dispatch(self.api.entries().destroy_encoder, status) {
            Err(e) => Some(e),
            Ok(()) => None,
        }
    }
}

} // verus!
