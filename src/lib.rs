//! A Web Audio host: one default output device, one fixed stream format, and
//! a render step that turns interleaved samples into per-channel buffers.

pub mod config;
pub mod error;
pub mod render;
pub mod webaudio;

pub use config::{
    SampleFormat, SampleRate, StreamConfig, SupportedStreamConfig, SupportedStreamConfigRange,
};
pub use error::{
    BackendSpecificError, BuildStreamError, DefaultStreamConfigError, DeviceNameError,
    DevicesError, HostUnavailable, PauseStreamError, PlayStreamError,
    SupportedStreamConfigsError,
};
pub use webaudio::{Device, Devices, Host, Stream, StreamId};
