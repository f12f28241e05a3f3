use vstd::prelude::*;

verus! {

/// An error that only this host knows, described in words.
#[derive(Clone, Debug, PartialEq, Eq)]
pub struct BackendSpecificError {
    pub description: String,
}

/// The host cannot be used on this platform.
#[derive(Clone, Copy, Debug, PartialEq, Eq, Structural)]
pub struct HostUnavailable;

/// Why a device's name could not be read.
#[derive(Clone, Debug, PartialEq, Eq)]
pub enum DeviceNameError {
    BackendSpecific { err: BackendSpecificError },
}

/// Why the devices could not be listed.
#[derive(Clone, Debug, PartialEq, Eq)]
pub enum DevicesError {
    BackendSpecific { err: BackendSpecificError },
}

/// Why the supported configurations of a device could not be listed.
#[derive(Clone, Debug, PartialEq, Eq)]
pub enum SupportedStreamConfigsError {
    DeviceNotAvailable,
    InvalidArgument,
    BackendSpecific { err: BackendSpecificError },
}

/// Why a device has no default configuration.
#[derive(Clone, Debug, PartialEq, Eq)]
pub enum DefaultStreamConfigError {
    DeviceNotAvailable,
    StreamTypeNotSupported,
    BackendSpecific { err: BackendSpecificError },
}

/// Why a stream could not be built.
#[derive(Clone, Debug, PartialEq, Eq)]
pub enum BuildStreamError {
    DeviceNotAvailable,
    StreamConfigNotSupported,
    InvalidArgument,
    StreamIdOverflow,
    BackendSpecific { err: BackendSpecificError },
}

/// Why a stream could not be started.
#[derive(Clone, Debug, PartialEq, Eq)]
pub enum PlayStreamError {
    DeviceNotAvailable,
    BackendSpecific { err: BackendSpecificError },
}

/// Why a stream could not be paused.
#[derive(Clone, Debug, PartialEq, Eq)]
pub enum PauseStreamError {
    DeviceNotAvailable,
    BackendSpecific { err: BackendSpecificError },
}

} // verus!
