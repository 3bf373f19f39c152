//! Plain enumerated tags and small value types exchanged across the
//! library's boundary: sample formats, host identities, backend tags, and
//! the 24-bit integer wrappers.

use vstd::prelude::*;

verus! {

/// The on-wire encoding of one sample, as reported by a device.
#[derive(Debug, Clone, Copy, PartialEq, Eq, Structural)]
pub enum SampleFormat {
    I8,
    U8,
    I16,
    U16,
    I32,
    U32,
    I64,
    U64,
    F32,
    F64,
}

impl SampleFormat {
    /// The wire formats the streaming engine itself converts to and from:
    /// 16-bit signed, 16-bit unsigned, and 32-bit float.
    pub open spec fn engine_supported_spec(self) -> bool {
        self == SampleFormat::I16 || self == SampleFormat::U16 || self == SampleFormat::F32
    }

    /// Whether the engine supports this wire format.
    pub fn engine_supported(&self) -> (r: bool)
        ensures
            r == self.engine_supported_spec(),
    {
        match self {
            SampleFormat::I16 => true,
            SampleFormat::U16 => true,
            SampleFormat::F32 => true,
            _ => false,
        }
    }
}

/// Identity of a platform audio host.
#[derive(Debug, Clone, Copy, PartialEq, Eq, Structural)]
pub enum HostId {
    Alsa,
    Jack,
    Wasapi,
    Asio,
    CoreAudio,
    Emscripten,
    Other,
}

/// The fixed list of host identities the library knows of.
pub open spec fn all_hosts_spec() -> Seq<HostId> {
    seq![
        HostId::Alsa,
        HostId::Jack,
        HostId::Wasapi,
        HostId::Asio,
        HostId::CoreAudio,
        HostId::Emscripten,
    ]
}

/// Returns every host identity the library knows of, in a fixed order.
pub fn get_all_hosts() -> (r: Vec<HostId>)
    ensures
        r@ == all_hosts_spec(),
{
    let r = vec![
        HostId::Alsa,
        HostId::Jack,
        HostId::Wasapi,
        HostId::Asio,
        HostId::CoreAudio,
        HostId::Emscripten,
    ];
    proof {
        assert(r@ =~= all_hosts_spec());
    }
    r
}

/// A 24-bit signed sample value, kept in the low 24 bits of an `i32`.
#[derive(Debug, Clone, Copy, PartialEq, Eq, Structural)]
pub struct I24 {
    pub(crate) inner: i32,
}

impl I24 {
    /// The stored 24-bit value.
    pub closed spec fn value(self) -> i32 {
        self.inner
    }

    /// Keeps the low 24 bits of `value`.
    pub fn new(value: i32) -> (r: I24)
        ensures
            r.value() == value & 0xFFFFFF,
    {
        I24 { inner: value & 0xFFFFFF }
    }

    /// The stored value, widened back to `i32`.
    pub fn to_i32(&self) -> (r: i32)
        ensures
            r == self.value(),
    {
        self.inner
    }
}

/// A 24-bit unsigned sample value, kept in the low 24 bits of a `u32`.
#[derive(Debug, Clone, Copy, PartialEq, Eq, Structural)]
pub struct U24 {
    pub(crate) inner: u32,
}

impl U24 {
    /// The stored 24-bit value.
    pub closed spec fn value(self) -> u32 {
        self.inner
    }

    /// Keeps the low 24 bits of `value`.
    pub fn new(value: u32) -> (r: U24)
        ensures
            r.value() == value & 0xFFFFFF,
    {
        U24 { inner: value & 0xFFFFFF }
    }

    /// The stored value, widened back to `u32`.
    pub fn to_u32(&self) -> (r: u32)
        ensures
            r == self.value(),
    {
        self.inner
    }
}

/// Which platform backend a host belongs to.
#[derive(Debug, Clone, Copy, PartialEq, Eq, Structural)]
pub enum HostInner {
    Alsa,
    Jack,
    Wasapi,
    Asio,
    CoreAudio,
    Emscripten,
    Other,
}

/// Which platform backend a device belongs to.
#[derive(Debug, Clone, Copy, PartialEq, Eq, Structural)]
pub enum DeviceInner {
    Alsa,
    Jack,
    Wasapi,
    Asio,
    CoreAudio,
    Emscripten,
    Other,
}

/// Which platform backend a stream belongs to.
#[derive(Debug, Clone, Copy, PartialEq, Eq, Structural)]
pub enum StreamInner {
    Alsa,
    Jack,
    Wasapi,
    Asio,
    CoreAudio,
    Emscripten,
    Other,
}

/// Which platform backend a device iterator belongs to.
#[derive(Debug, Clone, Copy, PartialEq, Eq, Structural)]
pub enum DevicesInner {
    Alsa,
    Jack,
    Wasapi,
    Asio,
    CoreAudio,
    Emscripten,
    Other,
}

} // verus!
