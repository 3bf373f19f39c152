//! Core of a callback-driven audio streaming engine.
//!
//! The library models and verifies the parts of an audio stack that do not
//! touch the platform's audio subsystem: the FIFO sample buffer shared between
//! an application and a hardware callback, the fixed-point sample
//! representation with its wire-format conversions, the per-callback fill and
//! capture loops (with silence substitution on underrun), stream configuration
//! negotiation, and the stream lifecycle state machine. The platform calls
//! themselves (host and device enumeration, stream construction, play/pause on
//! the driver) are hardware I/O and live in the unverified shell around this
//! crate.

pub mod buffer;
pub mod device;
pub mod device_description;
pub mod config;
pub mod engine;
pub mod error;
pub mod host;
pub mod sample;
pub mod stream;
pub mod types;
