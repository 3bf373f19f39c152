//! Plain values exchanged with the device layer of the unverified shell.

use vstd::prelude::*;
use crate::types::SampleFormat;

verus! {

/// A device's persistent identifier, as the platform reports it.
#[derive(Debug, Clone, PartialEq, Eq)]
pub struct DeviceId {
    pub id: String,
}

/// The wire format a stream was negotiated to, handed along with its data.
#[derive(Debug, Clone, Copy, PartialEq, Eq, Structural)]
pub struct Data {
    pub sample_format: SampleFormat,
}

} // verus!
