//! Error taxonomy, one enum per operation.
//!
//! Configuration and device-availability failures are reported synchronously
//! at construction and never retried; opaque driver failures surface as
//! `BackendSpecific` with a description carried beside the tag; operating on
//! an already released stream handle is the misuse error
//! `StreamNotInitialized`. Failures inside a live callback are routed to an
//! error sink by the shell and never unwind the real-time thread.

use vstd::prelude::*;

verus! {

/// Failure of stream construction, reported before any callback runs.
#[derive(Debug, Clone, Copy, PartialEq, Eq, Structural)]
pub enum BuildStreamError {
    DeviceNotAvailable,
    StreamConfigNotSupported,
    InvalidArgument,
    StreamIdOverflow,
    BackendSpecific,
}

/// Failure of a device's default-configuration query.
#[derive(Debug, Clone, Copy, PartialEq, Eq, Structural)]
pub enum DefaultStreamConfigError {
    DeviceNotAvailable,
    StreamConfigNotSupported,
    BackendSpecific,
}

/// Failure of a device-identifier query.
#[derive(Debug, Clone, Copy, PartialEq, Eq, Structural)]
pub enum DeviceIdError {
    DeviceNotAvailable,
    BackendSpecific,
}

/// Failure of a device-name query.
#[derive(Debug, Clone, Copy, PartialEq, Eq, Structural)]
pub enum DeviceNameError {
    DeviceNotAvailable,
    BackendSpecific,
}

/// Failure of device enumeration.
#[derive(Debug, Clone, Copy, PartialEq, Eq, Structural)]
pub enum DevicesError {
    BackendSpecific,
}

/// Failure of a pause request on a stream.
#[derive(Debug, Clone, Copy, PartialEq, Eq, Structural)]
pub enum PauseStreamError {
    DeviceNotAvailable,
    BackendSpecific,
    StreamNotInitialized,
}

/// Failure of a play request on a stream.
#[derive(Debug, Clone, Copy, PartialEq, Eq, Structural)]
pub enum PlayStreamError {
    DeviceNotAvailable,
    BackendSpecific,
    StreamNotInitialized,
}

/// Failure reported by a live stream to its error sink.
#[derive(Debug, Clone, Copy, PartialEq, Eq, Structural)]
pub enum StreamError {
    DeviceNotAvailable,
    BackendSpecific,
}

/// Failure of a supported-configurations query.
#[derive(Debug, Clone, Copy, PartialEq, Eq, Structural)]
pub enum SupportedStreamConfigsError {
    DeviceNotAvailable,
    InvalidArgument,
    BackendSpecific,
}

/// An opaque driver failure, surfaced with its description string.
#[derive(Debug, Clone, PartialEq, Eq)]
pub struct BackendSpecificError {
    pub description: String,
}

/// The requested audio host is not available on this platform.
#[derive(Debug, Clone, Copy, PartialEq, Eq, Structural)]
pub struct HostUnavailable;

} // verus!
