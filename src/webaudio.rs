use std::rc::Rc;
use vstd::prelude::*;
use wasm_bindgen::JsValue;
use web_sys::AudioContext;

use crate::config::{
    output_config, output_config_range, SampleFormat, SampleRate, StreamConfig,
    SupportedStreamConfig, SupportedStreamConfigRange, DEFAULT_CHANNELS, DEFAULT_SAMPLE_RATE,
};
use crate::error::{
    BackendSpecificError, BuildStreamError, DefaultStreamConfigError, DeviceNameError,
    DevicesError, HostUnavailable, PauseStreamError, PlayStreamError,
    SupportedStreamConfigsError,
};

// Each `Stream` owns one `AudioContext`: building a stream creates a context,
// and dropping the last handle of a stream releases it. The web-sys calls below
// reach the browser on a wasm target; on any other target web-sys panics, so
// only the paths that make no such call can run there.

verus! {

#[verifier::external_type_specification]
#[verifier::external_body]
pub struct ExAudioContext(web_sys::AudioContext);

#[verifier::external_type_specification]
#[verifier::external_body]
pub struct ExJsValue(wasm_bindgen::JsValue);

/// Relies on web_sys::window: whether the global `Window` object exists. The
/// answer depends on where the code runs, so nothing is promised of it.
#[verifier::external_body]
fn is_webaudio_available() -> (r: bool) {
    web_sys::window().is_some()
}

/// Relies on web_sys::AudioContext::new: a fresh context, or the exception
/// that the browser raised.
#[verifier::external_body]
fn new_audio_context() -> (r: Result<AudioContext, JsValue>) {
    AudioContext::new()
}

/// Relies on web_sys::AudioContext::resume: asks the context to run; the
/// promise of the outcome is dropped.
#[verifier::external_body]
fn resume_context(ctx: &AudioContext) {
    let _resume_result = ctx.resume();
}

/// Relies on web_sys::AudioContext::suspend: asks the context to pause; the
/// promise of the outcome is dropped.
#[verifier::external_body]
fn suspend_context(ctx: &AudioContext) {
    let _suspend_result = ctx.suspend();
}

/// The name of the one device of this host.
pub const DEVICE_NAME: &'static str = "Default Device";

/// The Web Audio host.
#[derive(Debug)]
pub struct Host;

/// The devices of the host: the one default device if the platform was
/// reachable when the list was made, else none. The snapshot is not taken
/// again, so two lists made at different times may disagree.
pub struct Devices(bool);

/// The default device of the platform, the only one there is.
#[derive(Clone, Copy, Debug, PartialEq, Eq, Structural)]
pub struct Device;

/// A running or paused output stream. Clones share one audio context.
#[derive(Clone)]
pub struct Stream {
    audio_ctxt_ref: Rc<AudioContext>,
}

/// Identifies a stream by its index.
#[derive(Debug, Clone, PartialEq, Eq, Hash, Structural)]
pub struct StreamId(pub usize);

impl Host {
    /// The host; it is always available on this platform.
    pub fn new() -> (r: Result<Host, HostUnavailable>)
        ensures
            r is Ok,
    {
        Ok(Host)
    }

    /// Whether this host can be used: always.
    pub fn is_available() -> (r: bool)
        ensures
            r,
    {
        true
    }

    /// The devices of the host, as reachable now.
    pub fn devices(&self) -> (r: Result<Devices, DevicesError>)
        ensures
            r is Ok,
    {
        Devices::new()
    }

    /// The default input device: there is none, input is not supported.
    pub fn default_input_device(&self) -> (r: Option<Device>)
        ensures
            r is None,
    {
        default_input_device()
    }

    /// The default output device, if the platform is reachable now.
    pub fn default_output_device(&self) -> (r: Option<Device>)
        ensures
            r is Some ==> r == Some(Device),
    {
        default_output_device()
    }
}

impl Devices {
    /// Whether the list still holds the device.
    pub closed spec fn available(self) -> bool {
        self.0
    }

    /// The list as it stands after one call of `next`.
    pub closed spec fn after_next(self) -> Devices {
        Devices(false)
    }

    /// What one call of `next` yields.
    pub open spec fn next_item(self) -> Option<Device> {
        if self.available() {
            Some(Device)
        } else {
            None
        }
    }

    /// The list after `n` calls of `next`.
    pub open spec fn after_calls(self, n: nat) -> Devices
        decreases n,
    {
        if n == 0 {
            self
        } else {
            self.after_calls((n - 1) as nat).after_next()
        }
    }

    fn new() -> (r: Result<Devices, DevicesError>)
        ensures
            r is Ok,
    {
        Ok(Devices::default())
    }

    /// A list that holds the device exactly when `available`.
    pub fn with_availability(available: bool) -> (r: Devices)
        ensures
            r.available() == available,
    {
        Devices(available)
    }

    /// The next device: the default device on the first call if the list
    /// holds it, and nothing after that.
    pub fn next(&mut self) -> (r: Option<Device>)
        ensures
            r == old(self).next_item(),
            *final(self) == old(self).after_next(),
    {
        if self.0 {
            self.0 = false;
            Some(Device)
        } else {
            None
        }
    }
}

impl Default for Devices {
    /// The list as the platform stands now.
    fn default() -> (r: Devices) {
        Devices(is_webaudio_available())
    }
}

/// Enumeration yields a device on the first call exactly when the platform was
/// reachable when the list was made, and yields nothing on every later call.
pub proof fn lemma_devices_yield_at_most_once(d: Devices, n: nat)
    ensures
        d.next_item() is Some <==> d.available(),
        d.after_calls(n + 1).next_item() is None,
{
}

/// The default output device when the platform is reachable, else none.
pub fn output_device_if(available: bool) -> (r: Option<Device>)
    ensures
        r is Some <==> available,
        r is Some ==> r == Some(Device),
{
    if available {
        Some(Device)
    } else {
        None
    }
}

fn default_input_device() -> (r: Option<Device>)
    ensures
        r is None,
{
    None
}

fn default_output_device() -> (r: Option<Device>)
    ensures
        r is Some ==> r == Some(Device),
{
    output_device_if(is_webaudio_available())
}

impl Device {
    /// The fixed name of the device.
    pub fn name(&self) -> (r: Result<String, DeviceNameError>)
        ensures
            r is Ok,
            r matches Ok(s) && s@ == DEVICE_NAME@,
    {
        Ok(DEVICE_NAME.to_owned())
    }

    /// Input is not supported: always an error.
    pub fn supported_input_configs(&self) -> (r: Result<
        Vec<SupportedStreamConfigRange>,
        SupportedStreamConfigsError,
    >)
        ensures
            r matches Err(SupportedStreamConfigsError::BackendSpecific { .. }),
    {
        Err(
            SupportedStreamConfigsError::BackendSpecific {
                err: BackendSpecificError { description: "input streams are not supported".to_owned() },
            },
        )
    }

    /// The output configurations: exactly one, two channels at the default
    /// sample rate in `F32`.
    pub fn supported_output_configs(&self) -> (r: Result<
        Vec<SupportedStreamConfigRange>,
        SupportedStreamConfigsError,
    >)
        ensures
            r matches Ok(v) && v@ == seq![output_config_range()],
    {
        let range = SupportedStreamConfigRange {
            channels: DEFAULT_CHANNELS,
            min_sample_rate: SampleRate(DEFAULT_SAMPLE_RATE),
            max_sample_rate: SampleRate(DEFAULT_SAMPLE_RATE),
            sample_format: SampleFormat::F32,
        };
        let v: Vec<SupportedStreamConfigRange> = vec![range];
        Ok(v)
    }

    /// Input is not supported: always `StreamTypeNotSupported`.
    pub fn default_input_config(&self) -> (r: Result<SupportedStreamConfig, DefaultStreamConfigError>)
        ensures
            r matches Err(DefaultStreamConfigError::StreamTypeNotSupported),
    {
        Err(DefaultStreamConfigError::StreamTypeNotSupported)
    }

    /// The default output configuration: two channels at the default sample
    /// rate in `F32`.
    pub fn default_output_config(&self) -> (r: Result<SupportedStreamConfig, DefaultStreamConfigError>)
        ensures
            r matches Ok(c) && c == output_config(),
    {
        Ok(
            SupportedStreamConfig {
                channels: DEFAULT_CHANNELS,
                sample_rate: SampleRate(DEFAULT_SAMPLE_RATE),
                sample_format: SampleFormat::F32,
            },
        )
    }

    /// Input is not supported: always `StreamConfigNotSupported`.
    pub fn build_input_stream_raw(&self, config: &StreamConfig, sample_format: SampleFormat) -> (r:
        Result<Stream, BuildStreamError>)
        ensures
            r matches Err(BuildStreamError::StreamConfigNotSupported),
    {
        Err(BuildStreamError::StreamConfigNotSupported)
    }

    /// A new output stream with a fresh audio context, which starts running.
    /// Only `F32` samples are accepted; the stream always has two channels at
    /// the default sample rate, whatever `config` asks. A context that the
    /// platform refuses is a backend error.
    pub fn build_output_stream_raw(&self, config: &StreamConfig, sample_format: SampleFormat) -> (r:
        Result<Stream, BuildStreamError>)
        ensures
            sample_format != SampleFormat::F32 ==> r matches Err(
                BuildStreamError::StreamConfigNotSupported,
            ),
            sample_format == SampleFormat::F32 ==> (r is Ok || r matches Err(
                BuildStreamError::BackendSpecific { .. },
            )),
    {
        if !sample_format.is_supported() {
            return Err(BuildStreamError::StreamConfigNotSupported);
        }
        match new_audio_context() {
            Ok(ctx) => Ok(Stream { audio_ctxt_ref: Rc::new(ctx) }),
            Err(_) => Err(
                BuildStreamError::BackendSpecific {
                    err: BackendSpecificError {
                        description: "the platform refused to create an audio context".to_owned(),
                    },
                },
            ),
        }
    }
}

impl Stream {
    /// Asks the audio context to run. The platform's answer is not awaited,
    /// so this always reports success.
    pub fn play(&self) -> (r: Result<(), PlayStreamError>)
        ensures
            r is Ok,
    {
        resume_context(&self.audio_ctxt_ref);
        Ok(())
    }

    /// Asks the audio context to pause. The platform's answer is not awaited,
    /// so this always reports success.
    pub fn pause(&self) -> (r: Result<(), PauseStreamError>)
        ensures
            r is Ok,
    {
        suspend_context(&self.audio_ctxt_ref);
        Ok(())
    }

    /// The audio context that this stream renders into.
    pub fn audio_context(&self) -> &AudioContext {
        &self.audio_ctxt_ref
    }
}

} // verus!
