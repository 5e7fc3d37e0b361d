//! Assembly of the immutable initialization descriptor a session is
//! initialized with, and the provider-owned preset configuration it may
//! embed.
//!
//! The descriptor is built once through `InitParamsBuilder` and then
//! handed to the session without further mutation. Its version field is
//! stamped at construction and no other constructor exists, so a
//! descriptor with a wrong stamp is unrepresentable.

use vstd::prelude::*;

use crate::guid::Guid;
use crate::version::CONFIG_VER;
use crate::version::INITIALIZE_PARAMS_VER;
use crate::version::PRESET_CONFIG_VER;

verus! {

/// A provider-owned preset configuration blob, tied to one
/// (codec, preset) pair. The wrapper reads nothing of the blob itself:
/// it holds an opaque token naming the provider-side value, plus the
/// two version stamps the blob was requested with. It is consumed
/// exactly once by the builder; it is deliberately neither `Clone` nor
/// `Copy`.
#[derive(Debug)]
pub struct PresetConfig {
    version: u32,
    config_version: u32,
    token: u64,
}

impl PresetConfig {
    /// The version stamp of the preset-configuration structure.
    pub closed spec fn spec_version(&self) -> u32 {
        self.version
    }

    /// The version stamp of the embedded encode configuration.
    pub closed spec fn spec_config_version(&self) -> u32 {
        self.config_version
    }

    /// The opaque token naming the provider-side blob.
    pub closed spec fn spec_token(&self) -> u64 {
        self.token
    }

    /// Wraps the provider-side blob a successful preset-configuration
    /// query produced. The stamps are fixed here: every value of this
    /// type carries the structure versions the query declared.
    pub(crate) fn from_provider(token: u64) -> (r: PresetConfig)
        ensures
            r.spec_version() == PRESET_CONFIG_VER,
            r.spec_config_version() == CONFIG_VER,
            r.spec_token() == token,
    {
        PresetConfig { version: PRESET_CONFIG_VER, config_version: CONFIG_VER, token }
    }

    /// The opaque token naming the provider-side blob.
    pub fn token(&self) -> (r: u64)
        ensures
            r == self.spec_token(),
    {
        self.token
    }

    /// The version stamp of the preset-configuration structure.
    pub fn version(&self) -> (r: u32)
        ensures
            r == self.spec_version(),
    {
        self.version
    }

    /// The version stamp of the embedded encode configuration.
    pub fn config_version(&self) -> (r: u32)
        ensures
            r == self.spec_config_version(),
    {
        self.config_version
    }
}

/// The plain record an initialization descriptor abstracts to.
pub struct InitParamsData {
    /// Version stamp of the initialization structure.
    pub version: u32,
    /// The codec the session will encode with.
    pub encode_guid: Guid,
    /// Encoded picture width.
    pub width: u32,
    /// Encoded picture height.
    pub height: u32,
    /// Display-aspect-ratio width.
    pub dar_width: u32,
    /// Display-aspect-ratio height.
    pub dar_height: u32,
    /// Largest width the session may later be reconfigured to.
    pub max_width: u32,
    /// Largest height the session may later be reconfigured to.
    pub max_height: u32,
    /// The preset the configuration was derived from.
    pub preset_guid: Guid,
    /// The embedded preset configuration, if one was fetched.
    pub preset_config: Option<PresetConfig>,
    /// Frame rate numerator.
    pub framerate_num: u32,
    /// Frame rate denominator.
    pub framerate_den: u32,
    /// Whether picture-type decision is delegated to the encoder.
    pub enable_ptd: bool,
}

/// The immutable descriptor a session is initialized with. Built once
/// via `InitParamsBuilder::build`; never mutated afterwards.
pub struct InitParams {
    data: InitParamsData,
}

impl View for InitParams {
    type V = InitParamsData;

    closed spec fn view(&self) -> InitParamsData {
        self.data
    }
}

impl InitParams {
    /// Version stamp of the initialization structure.
    pub fn version(&self) -> (r: u32)
        ensures
            r == self@.version,
    {
        self.data.version
    }

    /// The codec the session will encode with.
    pub fn encode_guid(&self) -> (r: Guid)
        ensures
            r == self@.encode_guid,
    {
        self.data.encode_guid
    }

    /// Encoded picture width.
    pub fn width(&self) -> (r: u32)
        ensures
            r == self@.width,
    {
        self.data.width
    }

    /// Encoded picture height.
    pub fn height(&self) -> (r: u32)
        ensures
            r == self@.height,
    {
        self.data.height
    }

    /// Display-aspect-ratio width.
    pub fn dar_width(&self) -> (r: u32)
        ensures
            r == self@.dar_width,
    {
        self.data.dar_width
    }

    /// Display-aspect-ratio height.
    pub fn dar_height(&self) -> (r: u32)
        ensures
            r == self@.dar_height,
    {
        self.data.dar_height
    }

    /// Largest width the session may later be reconfigured to.
    pub fn max_width(&self) -> (r: u32)
        ensures
            r == self@.max_width,
    {
        self.data.max_width
    }

    /// Largest height the session may later be reconfigured to.
    pub fn max_height(&self) -> (r: u32)
        ensures
            r == self@.max_height,
    {
        self.data.max_height
    }

    /// The preset the configuration was derived from.
    pub fn preset_guid(&self) -> (r: Guid)
        ensures
            r == self@.preset_guid,
    {
        self.data.preset_guid
    }

    /// The embedded preset configuration, if one was fetched.
    pub fn preset_config(&self) -> (r: &Option<PresetConfig>)
        ensures
            r == self@.preset_config,
    {
        &self.data.preset_config
    }

    /// Frame rate numerator.
    pub fn framerate_num(&self) -> (r: u32)
        ensures
            r == self@.framerate_num,
    {
        self.data.framerate_num
    }

    /// Frame rate denominator.
    pub fn framerate_den(&self) -> (r: u32)
        ensures
            r == self@.framerate_den,
    {
        self.data.framerate_den
    }

    /// Whether picture-type decision is delegated to the encoder.
    pub fn enable_ptd(&self) -> (r: bool)
        ensures
            r == self@.enable_ptd,
    {
        self.data.enable_ptd
    }
}

/// Assembles an `InitParams` descriptor. Starts from the all-zero
/// record with the structure version stamped and the codec fixed; each
/// method replaces exactly one field.
pub struct InitParamsBuilder(InitParams);

impl View for InitParamsBuilder {
    type V = InitParamsData;

    closed spec fn view(&self) -> InitParamsData {
        self.0@
    }
}

impl InitParamsBuilder {
    /// Starts a descriptor for the given codec. Every other field
    /// starts zeroed (or absent), as the provider expects of fields the
    /// caller does not set.
    pub fn new(encode: Guid) -> (r: Self)
        ensures
            r@.version == INITIALIZE_PARAMS_VER,
            r@.encode_guid == encode,
            r@.width == 0,
            r@.height == 0,
            r@.dar_width == 0,
            r@.dar_height == 0,
            r@.max_width == 0,
            r@.max_height == 0,
            r@.preset_guid.data1 == 0,
            r@.preset_guid.data2 == 0,
            r@.preset_guid.data3 == 0,
            forall|j: int| 0 <= j < 8 ==> r@.preset_guid.data4[j] == 0,
            r@.preset_config is None,
            r@.framerate_num == 0,
            r@.framerate_den == 0,
            !r@.enable_ptd,
    {
        InitParamsBuilder(
            InitParams {
                data: InitParamsData {
                    version: INITIALIZE_PARAMS_VER,
                    encode_guid: encode,
                    width: 0,
                    height: 0,
                    dar_width: 0,
                    dar_height: 0,
                    max_width: 0,
                    max_height: 0,
                    preset_guid: Guid { data1: 0, data2: 0, data3: 0, data4: [0u8; 8] },
                    preset_config: None,
                    framerate_num: 0,
                    framerate_den: 0,
                    enable_ptd: false,
                },
            },
        )
    }

    /// Sets the encoded picture width.
    pub fn width(self, width: u32) -> (r: Self)
        ensures
            r@ == (InitParamsData { width, ..self@ }),
    {
        let InitParamsBuilder(InitParams { mut data }) = self;
        data.width = width;
        InitParamsBuilder(InitParams { data })
    }

    /// Sets the encoded picture height.
    pub fn height(self, height: u32) -> (r: Self)
        ensures
            r@ == (InitParamsData { height, ..self@ }),
    {
        let InitParamsBuilder(InitParams { mut data }) = self;
        data.height = height;
        InitParamsBuilder(InitParams { data })
    }

    /// Sets the display-aspect-ratio width.
    pub fn dar_width(self, width: u32) -> (r: Self)
        ensures
            r@ == (InitParamsData { dar_width: width, ..self@ }),
    {
        let InitParamsBuilder(InitParams { mut data }) = self;
        data.dar_width = width;
        InitParamsBuilder(InitParams { data })
    }

    /// Sets the display-aspect-ratio height.
    pub fn dar_height(self, height: u32) -> (r: Self)
        ensures
            r@ == (InitParamsData { dar_height: height, ..self@ }),
    {
        let InitParamsBuilder(InitParams { mut data }) = self;
        data.dar_height = height;
        InitParamsBuilder(InitParams { data })
    }

    /// Sets the largest width the session may be reconfigured to.
    pub fn max_width(self, width: u32) -> (r: Self)
        ensures
            r@ == (InitParamsData { max_width: width, ..self@ }),
    {
        let InitParamsBuilder(InitParams { mut data }) = self;
        data.max_width = width;
        InitParamsBuilder(InitParams { data })
    }

    /// Sets the largest height the session may be reconfigured to.
    pub fn max_height(self, height: u32) -> (r: Self)
        ensures
            r@ == (InitParamsData { max_height: height, ..self@ }),
    {
        let InitParamsBuilder(InitParams { mut data }) = self;
        data.max_height = height;
        InitParamsBuilder(InitParams { data })
    }

    /// Names the preset the configuration was derived from.
    pub fn preset_guid(self, preset: Guid) -> (r: Self)
        ensures
            r@ == (InitParamsData { preset_guid: preset, ..self@ }),
    {
        let InitParamsBuilder(InitParams { mut data }) = self;
        data.preset_guid = preset;
        InitParamsBuilder(InitParams { data })
    }

    /// Embeds a fetched preset configuration, consuming it: ownership
    /// of the blob transfers into the descriptor.
    pub fn preset_config(self, preset: PresetConfig) -> (r: Self)
        ensures
            r@ == (InitParamsData { preset_config: Some(preset), ..self@ }),
    {
        let InitParamsBuilder(InitParams { mut data }) = self;
        data.preset_config = Some(preset);
        InitParamsBuilder(InitParams { data })
    }

    /// Sets the frame rate as a rational number.
    pub fn framerate(self, num: u32, den: u32) -> (r: Self)
        ensures
            r@ == (InitParamsData { framerate_num: num, framerate_den: den, ..self@ }),
    {
        let InitParamsBuilder(InitParams { mut data }) = self;
        data.framerate_num = num;
        data.framerate_den = den;
        InitParamsBuilder(InitParams { data })
    }

    /// Delegates (or withdraws) picture-type decision to the encoder.
    pub fn ptd(self, enable: bool) -> (r: Self)
        ensures
            r@ == (InitParamsData { enable_ptd: enable, ..self@ }),
    {
        let InitParamsBuilder(InitParams { mut data }) = self;
        data.enable_ptd = enable;
        InitParamsBuilder(InitParams { data })
    }

    /// Finishes assembly; the result is immutable from here on.
    pub fn build(self) -> (r: InitParams)
        ensures
            r@ == self@,
    {
        self.0
    }
}

} // verus!
