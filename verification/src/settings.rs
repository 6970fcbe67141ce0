//! The part of the configuration that the core reads.

use crate::bitrate::BitrateConfig;
use crate::dispatch::DispatchSettings;
use vstd::prelude::*;

verus! {

#[derive(Clone, Copy, Debug, PartialEq, Eq, Structural)]
pub enum CodecType {
    H264,
    Hevc,
    AV1,
}

#[derive(Clone, Copy, Debug, PartialEq, Eq, Structural)]
pub struct Settings {
    pub preferred_codec: CodecType,
    pub bitrate: BitrateConfig,
    pub dispatch: DispatchSettings,
    pub haptics_enabled: bool,
    pub log_haptics: bool,
}

/// The codec parameters that a decoder needs before the first frame.
pub struct DecoderInitializationConfig {
    pub codec: CodecType,
    pub config_buffer: Vec<u8>,
}

} // verus!
