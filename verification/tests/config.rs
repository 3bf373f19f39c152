use audio_engine::config::{
    buffer_size_supported, resolve_stream_format, validate_build_request, BufferSize,
    StreamConfig, SupportedBufferSize, SupportedStreamConfigRange,
};
use audio_engine::error::BuildStreamError;
use audio_engine::types::SampleFormat;

fn caps() -> SupportedStreamConfigRange {
    SupportedStreamConfigRange {
        channels: 2,
        min_sample_rate: 8000,
        max_sample_rate: 48000,
        buffer_size: SupportedBufferSize::Range(64, 4096),
        sample_format: SampleFormat::F32,
    }
}

#[test]
fn default_buffer_size_always_negotiates() {
    assert!(buffer_size_supported(BufferSize::Default, SupportedBufferSize::Unknown));
    assert!(buffer_size_supported(BufferSize::Default, SupportedBufferSize::Range(64, 128)));
}

#[test]
fn fixed_buffer_size_checks_the_advertised_range() {
    assert!(buffer_size_supported(BufferSize::Fixed(64), SupportedBufferSize::Range(64, 128)));
    assert!(buffer_size_supported(BufferSize::Fixed(128), SupportedBufferSize::Range(64, 128)));
    assert!(!buffer_size_supported(BufferSize::Fixed(63), SupportedBufferSize::Range(64, 128)));
    assert!(!buffer_size_supported(BufferSize::Fixed(129), SupportedBufferSize::Range(64, 128)));
    // An unknown advertised range defers the check to the platform.
    assert!(buffer_size_supported(BufferSize::Fixed(999), SupportedBufferSize::Unknown));
}

#[test]
fn build_request_in_envelope_is_accepted() {
    let c = StreamConfig { channels: 2, sample_rate: 44100, buffer_size: BufferSize::Default };
    assert_eq!(validate_build_request(&c, &caps()), Ok(()));
    let fixed = StreamConfig { channels: 2, sample_rate: 44100, buffer_size: BufferSize::Fixed(256) };
    assert_eq!(validate_build_request(&fixed, &caps()), Ok(()));
}

#[test]
fn malformed_config_is_an_invalid_argument() {
    let no_channels = StreamConfig { channels: 0, sample_rate: 44100, buffer_size: BufferSize::Default };
    assert_eq!(
        validate_build_request(&no_channels, &caps()),
        Err(BuildStreamError::InvalidArgument)
    );
    let no_rate = StreamConfig { channels: 2, sample_rate: 0, buffer_size: BufferSize::Default };
    assert_eq!(
        validate_build_request(&no_rate, &caps()),
        Err(BuildStreamError::InvalidArgument)
    );
}

#[test]
fn uncovered_config_is_not_supported() {
    let wrong_channels = StreamConfig { channels: 6, sample_rate: 44100, buffer_size: BufferSize::Default };
    assert_eq!(
        validate_build_request(&wrong_channels, &caps()),
        Err(BuildStreamError::StreamConfigNotSupported)
    );
    let rate_too_high = StreamConfig { channels: 2, sample_rate: 96000, buffer_size: BufferSize::Default };
    assert_eq!(
        validate_build_request(&rate_too_high, &caps()),
        Err(BuildStreamError::StreamConfigNotSupported)
    );
    let oversized_buffer = StreamConfig { channels: 2, sample_rate: 44100, buffer_size: BufferSize::Fixed(8192) };
    assert_eq!(
        validate_build_request(&oversized_buffer, &caps()),
        Err(BuildStreamError::StreamConfigNotSupported)
    );
}

#[test]
fn with_default_buffer_defers_to_the_platform() {
    let c = StreamConfig::with_default_buffer(2, 48000);
    assert_eq!(c.channels, 2);
    assert_eq!(c.sample_rate, 48000);
    assert_eq!(c.buffer_size, BufferSize::Default);
}

#[test]
fn engine_formats_resolve_and_others_fail() {
    assert_eq!(resolve_stream_format(SampleFormat::I16), Ok(SampleFormat::I16));
    assert_eq!(resolve_stream_format(SampleFormat::U16), Ok(SampleFormat::U16));
    assert_eq!(resolve_stream_format(SampleFormat::F32), Ok(SampleFormat::F32));
    assert_eq!(
        resolve_stream_format(SampleFormat::F64),
        Err(BuildStreamError::StreamConfigNotSupported)
    );
    assert_eq!(
        resolve_stream_format(SampleFormat::U8),
        Err(BuildStreamError::StreamConfigNotSupported)
    );
}
