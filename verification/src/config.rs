//! Stream configurations and the negotiation of a requested configuration
//! against a device's advertised capability envelope.
//!
//! A configuration names a channel count, a sample rate and a buffer size;
//! the buffer size either defers to the platform's chosen frame count or
//! requests a fixed one. A device advertises its capabilities as ranges; a
//! fixed buffer size outside the advertised range, or a channel count or
//! sample rate the envelope does not cover, fails stream construction with
//! `StreamConfigNotSupported` before any callback runs.

use vstd::prelude::*;
use crate::error::BuildStreamError;
use crate::types::SampleFormat;

verus! {

/// Requested frames per callback: the platform's choice, or a fixed count.
#[derive(Debug, Clone, Copy, PartialEq, Eq, Structural)]
pub enum BufferSize {
    Default,
    Fixed(u32),
}

/// A negotiated stream configuration. Once bound to a live stream it is
/// never changed for that stream's lifetime.
#[derive(Debug, Clone, Copy, PartialEq, Eq, Structural)]
pub struct StreamConfig {
    pub channels: u16,
    pub sample_rate: u32,
    pub buffer_size: BufferSize,
}

impl StreamConfig {
    /// A configuration is well formed iff it names at least one channel and
    /// a positive sample rate.
    pub open spec fn valid_spec(self) -> bool {
        self.channels >= 1 && self.sample_rate >= 1
    }

    /// Whether this configuration is well formed.
    pub fn is_valid(&self) -> (r: bool)
        ensures
            r == self.valid_spec(),
    {
        self.channels >= 1 && self.sample_rate >= 1
    }

    /// The configuration a device's default query yields: its channel count
    /// and sample rate, deferring the buffer size to the platform.
    pub fn with_default_buffer(channels: u16, sample_rate: u32) -> (c: StreamConfig)
        ensures
            c.channels == channels,
            c.sample_rate == sample_rate,
            c.buffer_size == BufferSize::Default,
    {
        StreamConfig { channels, sample_rate, buffer_size: BufferSize::Default }
    }
}

/// A device's advertised buffer-size capability: a frame-count range, or
/// unknown when the device does not report one.
#[derive(Debug, Clone, Copy, PartialEq, Eq, Structural)]
pub enum SupportedBufferSize {
    Unknown,
    Range(u32, u32),
}

/// One advertised capability envelope of a device, as the default and
/// supported-configuration queries report it.
#[derive(Debug, Clone, Copy, PartialEq, Eq, Structural)]
pub struct SupportedStreamConfig {
    pub channels: u16,
    pub min_sample_rate: u32,
    pub max_sample_rate: u32,
    pub buffer_size: SupportedBufferSize,
    pub sample_format: SampleFormat,
}

/// A device's advertised capability envelope: channel count, sample-rate
/// range, buffer-size range and native wire format. Read-only, derived from
/// device queries.
#[derive(Debug, Clone, Copy, PartialEq, Eq, Structural)]
pub struct SupportedStreamConfigRange {
    pub channels: u16,
    pub min_sample_rate: u32,
    pub max_sample_rate: u32,
    pub buffer_size: SupportedBufferSize,
    pub sample_format: SampleFormat,
}

/// A requested buffer size is satisfiable iff it defers to the platform, or
/// requests a fixed count within the advertised range. An unknown advertised
/// range cannot be checked here and is deferred to the platform.
pub open spec fn buffer_size_supported_spec(req: BufferSize, sup: SupportedBufferSize) -> bool {
    match req {
        BufferSize::Default => true,
        BufferSize::Fixed(n) => match sup {
            SupportedBufferSize::Unknown => true,
            SupportedBufferSize::Range(lo, hi) => lo <= n && n <= hi,
        },
    }
}

/// Whether the advertised buffer-size capability satisfies the request.
pub fn buffer_size_supported(req: BufferSize, sup: SupportedBufferSize) -> (r: bool)
    ensures
        r == buffer_size_supported_spec(req, sup),
{
    match req {
        BufferSize::Default => true,
        BufferSize::Fixed(n) => match sup {
            SupportedBufferSize::Unknown => true,
            SupportedBufferSize::Range(lo, hi) => lo <= n && n <= hi,
        },
    }
}

impl SupportedStreamConfigRange {
    /// The envelope covers `c` iff the channel counts agree, the sample rate
    /// lies in the advertised range, and the buffer-size request is
    /// satisfiable.
    pub open spec fn supports_spec(self, c: StreamConfig) -> bool {
        &&& self.channels == c.channels
        &&& self.min_sample_rate <= c.sample_rate
        &&& c.sample_rate <= self.max_sample_rate
        &&& buffer_size_supported_spec(c.buffer_size, self.buffer_size)
    }

    /// Whether this envelope covers the requested configuration.
    pub fn supports(&self, c: &StreamConfig) -> (r: bool)
        ensures
            r == self.supports_spec(*c),
    {
        self.channels == c.channels && self.min_sample_rate <= c.sample_rate
            && c.sample_rate <= self.max_sample_rate
            && buffer_size_supported(c.buffer_size, self.buffer_size)
    }
}

/// Validates a build request against the device's advertised envelope.
/// Succeeds exactly when the configuration is well formed and covered; a
/// malformed configuration is an invalid argument, and a well-formed one the
/// envelope does not cover is not supported.
pub fn validate_build_request(c: &StreamConfig, caps: &SupportedStreamConfigRange) -> (r: Result<
    (),
    BuildStreamError,
>)
    ensures
        r is Ok <==> c.valid_spec() && caps.supports_spec(*c),
        !c.valid_spec() ==> r == Err::<(), BuildStreamError>(BuildStreamError::InvalidArgument),
        c.valid_spec() && !caps.supports_spec(*c) ==> r == Err::<(), BuildStreamError>(
            BuildStreamError::StreamConfigNotSupported,
        ),
{
    if !c.is_valid() {
        Err(BuildStreamError::InvalidArgument)
    } else if !caps.supports(c) {
        Err(BuildStreamError::StreamConfigNotSupported)
    } else {
        Ok(())
    }
}

/// Resolves the wire format a stream will use. Selection is driven by the
/// device's reported native format alone: a format the engine can convert is
/// taken as it stands, and any other fails construction.
pub fn resolve_stream_format(fmt: SampleFormat) -> (r: Result<SampleFormat, BuildStreamError>)
    ensures
        fmt.engine_supported_spec() ==> r == Ok::<SampleFormat, BuildStreamError>(fmt),
        !fmt.engine_supported_spec() ==> r == Err::<SampleFormat, BuildStreamError>(
            BuildStreamError::StreamConfigNotSupported,
        ),
{
    if fmt.engine_supported() {
        Ok(fmt)
    } else {
        Err(BuildStreamError::StreamConfigNotSupported)
    }
}

} // verus!
