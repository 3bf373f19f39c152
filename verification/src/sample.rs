//! Fixed-point representation of normalized audio samples and the
//! conversions between that representation and the 16-bit wire formats.
//!
//! A normalized sample value `v` in `[-1.0, +1.0]` is stored as the integer
//! `raw` with `v == raw / SAMPLE_ONE`. The scale `SAMPLE_ONE` is
//! `32767 * 65535`, chosen so that both documented wire scalings are exact on
//! it: one signed 16-bit quantization step (`1/32767` of full scale) is
//! exactly `65535` raw units, and one unsigned 16-bit step of the shifted
//! scale (`1/65535` of `v * 0.5 + 0.5`) is exactly `65534` raw units.
//!
//! The wire scalings are the documented ones: signed 16-bit is
//! `v * 32767` truncated toward zero, unsigned 16-bit is
//! `(v * 0.5 + 0.5) * 65535` truncated, and the float wire format carries the
//! normalized value itself (the raw value, here).

use vstd::prelude::*;
use vstd::arithmetic::div_mod::{
    lemma_div_is_ordered, lemma_fundamental_div_mod, lemma_fundamental_div_mod_converse,
};

verus! {

/// The raw value that stands for full positive amplitude (`+1.0`).
pub const SAMPLE_ONE: i64 = 32767 * 65535;

/// Mid-scale of the unsigned 16-bit wire range: the neutral (silence) value
/// of that format, `(0.0 * 0.5 + 0.5) * 65535` truncated.
pub const U16_SILENCE: u16 = 32767;

/// A raw value stands for a normalized sample iff its amplitude is at most one.
pub open spec fn sample_valid(s: i64) -> bool {
    -SAMPLE_ONE <= s && s <= SAMPLE_ONE
}

/// Signed 16-bit wire value of the normalized sample `s / SAMPLE_ONE`:
/// `v * 32767` truncated toward zero, which on the raw scale is `s / 65535`
/// truncated toward zero.
pub open spec fn to_i16_spec(s: int) -> int {
    if s >= 0 {
        s / 65535
    } else {
        -((-s) / 65535)
    }
}

/// Normalized raw value of a signed 16-bit wire value: `w / 32767`, which on
/// the raw scale is `w * 65535`, exact. The one wire value below negative
/// full scale, `-32768`, is clamped to `-1.0`.
pub open spec fn from_i16_spec(w: int) -> int {
    if w <= -32768 {
        -SAMPLE_ONE
    } else {
        w * 65535
    }
}

/// Unsigned 16-bit wire value of the normalized sample `s / SAMPLE_ONE`:
/// `(v * 0.5 + 0.5) * 65535` truncated, which on the raw scale is
/// `(s + SAMPLE_ONE) / 65534` truncated.
pub open spec fn to_u16_spec(s: int) -> int {
    (s + SAMPLE_ONE) / 65534
}

/// Normalized raw value of an unsigned 16-bit wire value: the inverse scaling
/// `(w / 65535 - 0.5) * 2`, which on the raw scale is `(2 * w - 65535) * 32767`,
/// exact.
pub open spec fn from_u16_spec(w: int) -> int {
    (2 * w - 65535) * 32767
}

/// Converts a normalized sample to its signed 16-bit wire value.
pub fn sample_to_i16(s: i64) -> (w: i16)
    requires
        sample_valid(s),
    ensures
        w as int == to_i16_spec(s as int),
        -32767 <= w <= 32767,
{
    proof {
        lemma_div_is_ordered(s as int, SAMPLE_ONE as int, 65535);
        lemma_div_is_ordered(-(s as int), SAMPLE_ONE as int, 65535);
        lemma_fundamental_div_mod_converse(SAMPLE_ONE as int, 65535, 32767, 0);
    }
    if s >= 0 {
        (s / 65535) as i16
    } else {
        (-((-s) / 65535)) as i16
    }
}

/// Converts a signed 16-bit wire value to a normalized sample.
pub fn sample_from_i16(w: i16) -> (s: i64)
    ensures
        s as int == from_i16_spec(w as int),
        sample_valid(s),
{
    if w == -32768i16 {
        -SAMPLE_ONE
    } else {
        (w as i64) * 65535
    }
}

/// Converts a normalized sample to its unsigned 16-bit wire value.
pub fn sample_to_u16(s: i64) -> (w: u16)
    requires
        sample_valid(s),
    ensures
        w as int == to_u16_spec(s as int),
{
    proof {
        lemma_div_is_ordered(0, (s + SAMPLE_ONE) as int, 65534);
        lemma_div_is_ordered((s + SAMPLE_ONE) as int, 2 * SAMPLE_ONE as int, 65534);
        lemma_fundamental_div_mod_converse(2 * SAMPLE_ONE as int, 65534, 65535, 0);
    }
    ((s + SAMPLE_ONE) / 65534) as u16
}

/// Converts an unsigned 16-bit wire value to a normalized sample.
pub fn sample_from_u16(w: u16) -> (s: i64)
    ensures
        s as int == from_u16_spec(w as int),
        sample_valid(s),
{
    (2 * (w as i64) - 65535) * 32767
}

/// Round trip through the signed 16-bit wire format recovers the sample
/// within one quantization step: `1/32767` of full scale, which is `65535`
/// raw units.
pub proof fn lemma_i16_round_trip(s: int)
    requires
        -SAMPLE_ONE <= s <= SAMPLE_ONE,
    ensures
        -65535 < s - from_i16_spec(to_i16_spec(s)) < 65535,
{
    if s >= 0 {
        lemma_fundamental_div_mod(s, 65535);
        lemma_div_is_ordered(s, SAMPLE_ONE as int, 65535);
        lemma_fundamental_div_mod_converse(SAMPLE_ONE as int, 65535, 32767, 0);
    } else {
        lemma_fundamental_div_mod(-s, 65535);
        lemma_div_is_ordered(-s, SAMPLE_ONE as int, 65535);
        lemma_fundamental_div_mod_converse(SAMPLE_ONE as int, 65535, 32767, 0);
    }
}

/// Round trip through the unsigned 16-bit wire format recovers the sample
/// within one step of the shifted scale: `1/65535` of `v * 0.5 + 0.5`, which
/// is `65534` raw units. The loss is never negative: truncation only lowers
/// the value.
pub proof fn lemma_u16_round_trip(s: int)
    requires
        -SAMPLE_ONE <= s <= SAMPLE_ONE,
    ensures
        0 <= s - from_u16_spec(to_u16_spec(s)) < 65534,
{
    lemma_fundamental_div_mod(s + SAMPLE_ONE, 65534);
}

/// The neutral sample converts to the documented neutral wire values: zero
/// for the signed format and mid-scale for the unsigned one.
pub proof fn lemma_silence_wire_values()
    ensures
        to_i16_spec(0) == 0,
        to_u16_spec(0) == U16_SILENCE,
        from_i16_spec(0) == 0,
{
    lemma_fundamental_div_mod_converse(SAMPLE_ONE as int, 65534, 32767, 32767);
}

} // verus!
