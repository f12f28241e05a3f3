use vstd::prelude::*;

verus! {

/// The sample rate that every stream of this host runs at, in hertz.
pub const DEFAULT_SAMPLE_RATE: u32 = 48000;

/// The number of channels that every stream of this host carries.
pub const DEFAULT_CHANNELS: u16 = 2;

/// The encoding of one sample.
#[derive(Clone, Copy, Debug, PartialEq, Eq, Structural)]
pub enum SampleFormat {
    I16,
    U16,
    F32,
}

/// A number of frames per second.
#[derive(Clone, Copy, Debug, PartialEq, Eq, Structural)]
pub struct SampleRate(pub u32);

/// What a caller asks of a stream: its channel count and its sample rate.
#[derive(Clone, Copy, Debug, PartialEq, Eq, Structural)]
pub struct StreamConfig {
    pub channels: u16,
    pub sample_rate: SampleRate,
}

/// One stream configuration that a device can run, with its sample rates as a
/// closed range.
#[derive(Clone, Copy, Debug, PartialEq, Eq, Structural)]
pub struct SupportedStreamConfigRange {
    pub channels: u16,
    pub min_sample_rate: SampleRate,
    pub max_sample_rate: SampleRate,
    pub sample_format: SampleFormat,
}

/// One fully determined stream configuration.
#[derive(Clone, Copy, Debug, PartialEq, Eq, Structural)]
pub struct SupportedStreamConfig {
    pub channels: u16,
    pub sample_rate: SampleRate,
    pub sample_format: SampleFormat,
}

/// The single output configuration range of this host.
pub open spec fn output_config_range() -> SupportedStreamConfigRange {
    SupportedStreamConfigRange {
        channels: DEFAULT_CHANNELS,
        min_sample_rate: SampleRate(DEFAULT_SAMPLE_RATE),
        max_sample_rate: SampleRate(DEFAULT_SAMPLE_RATE),
        sample_format: SampleFormat::F32,
    }
}

/// The default output configuration of this host.
pub open spec fn output_config() -> SupportedStreamConfig {
    SupportedStreamConfig {
        channels: DEFAULT_CHANNELS,
        sample_rate: SampleRate(DEFAULT_SAMPLE_RATE),
        sample_format: SampleFormat::F32,
    }
}

impl SampleFormat {
    /// Whether this host can render samples of this format.
    pub fn is_supported(&self) -> (r: bool)
        ensures
            r <==> *self == SampleFormat::F32,
    {
        match self {
            SampleFormat::F32 => true,
            _ => false,
        }
    }
}

impl SupportedStreamConfig {
    /// The channel count and sample rate of this configuration.
    pub fn config(&self) -> (r: StreamConfig)
        ensures
            r.channels == self.channels,
            r.sample_rate == self.sample_rate,
    {
        StreamConfig { channels: self.channels, sample_rate: self.sample_rate }
    }
}

} // verus!
