//! The per-callback streaming engine.
//!
//! For output, each hardware delivery of `len` slots is treated as frames of
//! `channels` consecutive slots (a trailing partial frame counts as a frame):
//! one sample is popped from the buffer per frame, replicated across all
//! slots of that frame, and converted to the wire format; when the buffer
//! runs out, the wire format's neutral value stands in — underrun degrades to
//! silence, never to stale data and never to waiting. For input, only the
//! first slot of each captured frame is taken (downmix by selection, a known
//! simplification), converted to a normalized sample, and appended to the
//! buffer. The synthetic self-test path keeps a phase accumulator wrapped
//! modulo the sample rate; the tone computed from it never consults a buffer.

use vstd::prelude::*;
use vstd::arithmetic::div_mod::{
    lemma_basic_div, lemma_div_multiples_vanish_fancy, lemma_div_plus_one, lemma_div_pos_is_pos,
    lemma_fundamental_div_mod, lemma_mod_division_less_than_divisor,
};
use vstd::arithmetic::mul::{
    lemma_mul_inequality, lemma_mul_is_commutative, lemma_mul_is_distributive_add,
};
use vstd::math::min;
use crate::buffer::AudioBuffer;
use crate::sample::{
    from_i16_spec, from_u16_spec, sample_from_i16, sample_from_u16, sample_to_i16, sample_to_u16,
    sample_valid, to_i16_spec, to_u16_spec, U16_SILENCE,
};

verus! {

/// Number of frames in a delivery of `len` slots with `channels` slots per
/// frame: `len / channels` rounded up, so a trailing partial frame counts.
pub open spec fn frames_of(len: int, ch: int) -> int
    recommends
        ch >= 1,
{
    (len + ch - 1) / ch
}

/// The wire value of output slot `s`: the sample of frame `s / ch` as signed
/// 16-bit, or zero (that format's silence) past the buffered samples.
pub open spec fn output_slot_i16(v: Seq<i64>, s: int, ch: int) -> int {
    if 0 <= s / ch < v.len() {
        to_i16_spec(v[s / ch] as int)
    } else {
        0
    }
}

/// The wire value of output slot `s`: the sample of frame `s / ch` as
/// unsigned 16-bit, or mid-scale (that format's silence) past the buffered
/// samples.
pub open spec fn output_slot_u16(v: Seq<i64>, s: int, ch: int) -> int {
    if 0 <= s / ch < v.len() {
        to_u16_spec(v[s / ch] as int)
    } else {
        U16_SILENCE as int
    }
}

/// The raw value of output slot `s`: the sample of frame `s / ch` unchanged
/// (the float wire format carries the normalized value), or zero past the
/// buffered samples.
pub open spec fn output_slot_raw(v: Seq<i64>, s: int, ch: int) -> i64 {
    if 0 <= s / ch < v.len() {
        v[s / ch]
    } else {
        0
    }
}

/// Underrun law: with nothing buffered, every output slot is the wire
/// format's documented neutral value — zero for the signed and raw (float)
/// formats, mid-scale for the unsigned one.
pub proof fn lemma_underrun_silence(v: Seq<i64>, s: int, ch: int)
    requires
        v.len() == 0,
    ensures
        output_slot_i16(v, s, ch) == 0,
        output_slot_u16(v, s, ch) == U16_SILENCE,
        output_slot_raw(v, s, ch) == 0,
{
}

/// Division facts about the frame of a slot, used by the fill loops: the
/// frame count of `s + 1` slots always exceeds the frame index `s / ch` by
/// one, the frame count of `s` slots is `s / ch` rounded up, and a successor
/// slot that does not start a new frame lies in the same frame.
proof fn lemma_frame_arith(s: int, ch: int)
    requires
        0 <= s,
        1 <= ch,
    ensures
        0 <= s / ch,
        frames_of(s + 1, ch) == s / ch + 1,
        s % ch == 0 ==> frames_of(s, ch) == s / ch,
        s % ch != 0 ==> frames_of(s, ch) == s / ch + 1,
        (s + 1) % ch != 0 ==> (s + 1) / ch == s / ch,
{
    lemma_fundamental_div_mod(s, ch);
    lemma_mod_division_less_than_divisor(s, ch);
    lemma_div_pos_is_pos(s, ch);
    let q: int = s / ch;
    let r: int = s % ch;
    assert(ch * (q + 1) == ch * q + ch) by {
        lemma_mul_is_distributive_add(ch, q, 1);
    }
    assert(s + 1 + ch - 1 == ch * (q + 1) + r);
    lemma_div_multiples_vanish_fancy(q + 1, r, ch);
    if r == 0 {
        assert(s + ch - 1 == ch * q + (ch - 1));
        lemma_div_multiples_vanish_fancy(q, ch - 1, ch);
    } else {
        assert(s + ch - 1 == ch * (q + 1) + (r - 1));
        lemma_div_multiples_vanish_fancy(q + 1, r - 1, ch);
    }
    if r + 1 < ch {
        assert(s + 1 == ch * q + (r + 1));
        lemma_div_multiples_vanish_fancy(q, r + 1, ch);
        lemma_fundamental_div_mod(s + 1, ch);
    } else {
        assert(s + 1 == ch * (q + 1) + 0);
        lemma_div_multiples_vanish_fancy(q + 1, 0, ch);
        lemma_fundamental_div_mod(s + 1, ch);
    }
}

/// Fills `len` output slots in the signed 16-bit wire format: one buffered
/// sample per frame, replicated across the frame's `channels` slots, with
/// zero substituted once the buffer is exhausted. Consumes exactly one
/// sample per frame while any remain.
pub fn render_output_i16(buf: &mut AudioBuffer, len: usize, channels: usize) -> (out: Vec<i16>)
    requires
        channels >= 1,
        old(buf).wf(),
    ensures
        out@.len() == len,
        forall|s: int| 0 <= s < len ==> out@[s] as int == output_slot_i16(
            old(buf)@,
            s,
            channels as int,
        ),
        final(buf)@ == old(buf)@.skip(
            min(frames_of(len as int, channels as int), old(buf)@.len() as int),
        ),
        final(buf).wf(),
{
    let mut out: Vec<i16> = Vec::new();
    let mut s: usize = 0;
    let mut current: i16 = 0;
    proof {
        lemma_basic_div(channels as int - 1, channels as int);
        assert(frames_of(0, channels as int) == 0);
        assert(old(buf)@.skip(0) =~= old(buf)@);
    }
    while s < len
        invariant
            channels >= 1,
            s <= len,
            out@.len() == s,
            old(buf).wf(),
            buf.wf(),
            buf@ == old(buf)@.skip(
                min(frames_of(s as int, channels as int), old(buf)@.len() as int),
            ),
            forall|j: int| 0 <= j < s ==> out@[j] as int == output_slot_i16(
                old(buf)@,
                j,
                channels as int,
            ),
            s % channels != 0 ==> current as int == output_slot_i16(
                old(buf)@,
                s as int,
                channels as int,
            ),
        decreases len - s,
    {
        proof {
            lemma_frame_arith(s as int, channels as int);
        }
        let ghost q: int = s as int / channels as int;
        let ghost pre: Seq<i64> = old(buf)@;
        if s % channels == 0 {
            current = match buf.pop_one() {
                Some(v) => sample_to_i16(v),
                None => 0,
            };
            proof {
                if q < pre.len() {
                    assert(pre.skip(q)[0] == pre[q]);
                    assert(pre.skip(q).drop_first() =~= pre.skip(q + 1));
                }
            }
        }
        out.push(current);
        s += 1;
        proof {
            assert(buf@ =~= pre.skip(min(frames_of(s as int, channels as int), pre.len() as int)));
        }
    }
    out
}

/// Fills `len` output slots in the unsigned 16-bit wire format: as the
/// signed path, with mid-scale substituted on underrun.
pub fn render_output_u16(buf: &mut AudioBuffer, len: usize, channels: usize) -> (out: Vec<u16>)
    requires
        channels >= 1,
        old(buf).wf(),
    ensures
        out@.len() == len,
        forall|s: int| 0 <= s < len ==> out@[s] as int == output_slot_u16(
            old(buf)@,
            s,
            channels as int,
        ),
        final(buf)@ == old(buf)@.skip(
            min(frames_of(len as int, channels as int), old(buf)@.len() as int),
        ),
        final(buf).wf(),
{
    let mut out: Vec<u16> = Vec::new();
    let mut s: usize = 0;
    let mut current: u16 = U16_SILENCE;
    proof {
        lemma_basic_div(channels as int - 1, channels as int);
        assert(frames_of(0, channels as int) == 0);
        assert(old(buf)@.skip(0) =~= old(buf)@);
    }
    while s < len
        invariant
            channels >= 1,
            s <= len,
            out@.len() == s,
            old(buf).wf(),
            buf.wf(),
            buf@ == old(buf)@.skip(
                min(frames_of(s as int, channels as int), old(buf)@.len() as int),
            ),
            forall|j: int| 0 <= j < s ==> out@[j] as int == output_slot_u16(
                old(buf)@,
                j,
                channels as int,
            ),
            s % channels != 0 ==> current as int == output_slot_u16(
                old(buf)@,
                s as int,
                channels as int,
            ),
        decreases len - s,
    {
        proof {
            lemma_frame_arith(s as int, channels as int);
        }
        let ghost q: int = s as int / channels as int;
        let ghost pre: Seq<i64> = old(buf)@;
        if s % channels == 0 {
            current = match buf.pop_one() {
                Some(v) => sample_to_u16(v),
                None => U16_SILENCE,
            };
            proof {
                if q < pre.len() {
                    assert(pre.skip(q)[0] == pre[q]);
                    assert(pre.skip(q).drop_first() =~= pre.skip(q + 1));
                }
            }
        }
        out.push(current);
        s += 1;
        proof {
            assert(buf@ =~= pre.skip(min(frames_of(s as int, channels as int), pre.len() as int)));
        }
    }
    out
}

/// Fills `len` output slots with raw normalized samples (the float wire
/// format is the identity scaling): one buffered sample per frame,
/// replicated across the frame, zero substituted on underrun.
pub fn render_output_raw(buf: &mut AudioBuffer, len: usize, channels: usize) -> (out: Vec<i64>)
    requires
        channels >= 1,
        old(buf).wf(),
    ensures
        out@.len() == len,
        forall|s: int| 0 <= s < len ==> out@[s] == output_slot_raw(
            old(buf)@,
            s,
            channels as int,
        ),
        forall|s: int| 0 <= s < len ==> sample_valid(#[trigger] out@[s]),
        final(buf)@ == old(buf)@.skip(
            min(frames_of(len as int, channels as int), old(buf)@.len() as int),
        ),
        final(buf).wf(),
{
    let mut out: Vec<i64> = Vec::new();
    let mut s: usize = 0;
    let mut current: i64 = 0;
    proof {
        lemma_basic_div(channels as int - 1, channels as int);
        assert(frames_of(0, channels as int) == 0);
        assert(old(buf)@.skip(0) =~= old(buf)@);
    }
    while s < len
        invariant
            channels >= 1,
            s <= len,
            out@.len() == s,
            old(buf).wf(),
            buf.wf(),
            buf@ == old(buf)@.skip(
                min(frames_of(s as int, channels as int), old(buf)@.len() as int),
            ),
            forall|j: int| 0 <= j < s ==> out@[j] == output_slot_raw(
                old(buf)@,
                j,
                channels as int,
            ),
            forall|j: int| 0 <= j < s ==> sample_valid(#[trigger] out@[j]),
            s % channels != 0 ==> current == output_slot_raw(
                old(buf)@,
                s as int,
                channels as int,
            ),
            sample_valid(current),
        decreases len - s,
    {
        proof {
            lemma_frame_arith(s as int, channels as int);
        }
        let ghost q: int = s as int / channels as int;
        let ghost pre: Seq<i64> = old(buf)@;
        if s % channels == 0 {
            current = match buf.pop_one() {
                Some(v) => v,
                None => 0,
            };
            proof {
                if q < pre.len() {
                    assert(pre.skip(q)[0] == pre[q]);
                    assert(pre.skip(q).drop_first() =~= pre.skip(q + 1));
                }
            }
        }
        out.push(current);
        s += 1;
        proof {
            assert(buf@ =~= pre.skip(min(frames_of(s as int, channels as int), pre.len() as int)));
        }
    }
    out
}

/// The samples an input delivery contributes: the first slot of each frame,
/// unchanged (raw normalized values).
pub open spec fn input_seq_raw(d: Seq<i64>, ch: int) -> Seq<i64> {
    Seq::new(frames_of(d.len() as int, ch) as nat, |f: int| d[f * ch])
}

/// The samples an input delivery contributes: the first slot of each frame,
/// converted from the signed 16-bit wire format.
pub open spec fn input_seq_i16(d: Seq<i16>, ch: int) -> Seq<i64> {
    Seq::new(frames_of(d.len() as int, ch) as nat, |f: int| from_i16_spec(d[f * ch] as int) as i64)
}

/// The samples an input delivery contributes: the first slot of each frame,
/// converted from the unsigned 16-bit wire format.
pub open spec fn input_seq_u16(d: Seq<u16>, ch: int) -> Seq<i64> {
    Seq::new(frames_of(d.len() as int, ch) as nat, |f: int| from_u16_spec(d[f * ch] as int) as i64)
}

/// Index bound for the first slot of frame `f`: within the delivery.
proof fn lemma_first_slot_in_bounds(f: int, n: int, ch: int)
    requires
        1 <= ch,
        1 <= n,
        0 <= f,
        f < frames_of(n, ch),
    ensures
        f * ch <= n - 1,
{
    assert(ch + (n - 1) == (n + ch - 1));
    lemma_div_plus_one(n - 1, ch);
    lemma_mul_inequality(f, (n - 1) / ch, ch);
    lemma_mul_is_commutative((n - 1) / ch, ch);
    lemma_fundamental_div_mod(n - 1, ch);
    lemma_mod_division_less_than_divisor(n - 1, ch);
}

/// Appends the first slot of each captured frame to the buffer, in order.
pub fn capture_input_raw(buf: &mut AudioBuffer, data: &Vec<i64>, channels: usize)
    requires
        channels >= 1,
        old(buf).wf(),
        forall|i: int| 0 <= i < data@.len() ==> sample_valid(#[trigger] data@[i]),
    ensures
        final(buf)@ == old(buf)@ + input_seq_raw(data@, channels as int),
        final(buf).wf(),
{
    let n: usize = data.len();
    if n == 0 {
        proof {
            assert(frames_of(0, channels as int) == 0) by {
                lemma_basic_div(channels as int - 1, channels as int);
            }
            assert(buf@ =~= old(buf)@ + input_seq_raw(data@, channels as int));
        }
        return;
    }
    let frames: usize = 1 + (n - 1) / channels;
    proof {
        assert(channels as int + (n - 1) as int == (n as int + channels as int - 1));
        lemma_div_plus_one((n - 1) as int, channels as int);
    }
    let mut f: usize = 0;
    proof {
        assert(buf@ =~= old(buf)@ + input_seq_raw(data@, channels as int).take(0));
    }
    while f < frames
        invariant
            channels >= 1,
            n == data@.len(),
            1 <= n,
            frames == frames_of(n as int, channels as int),
            f <= frames,
            old(buf).wf(),
            buf.wf(),
            forall|i: int| 0 <= i < data@.len() ==> sample_valid(#[trigger] data@[i]),
            buf@ == old(buf)@ + input_seq_raw(data@, channels as int).take(f as int),
        decreases frames - f,
    {
        proof {
            lemma_first_slot_in_bounds(f as int, n as int, channels as int);
        }
        let idx: usize = f * channels;
        let v: i64 = data[idx];
        buf.push_sample(v);
        f += 1;
        proof {
            assert(buf@ =~= old(buf)@ + input_seq_raw(data@, channels as int).take(f as int));
        }
    }
    proof {
        assert(input_seq_raw(data@, channels as int).take(frames as int) =~= input_seq_raw(
            data@,
            channels as int,
        ));
    }
}

/// Appends the first slot of each captured frame to the buffer, converted
/// from the signed 16-bit wire format, in order.
pub fn capture_input_i16(buf: &mut AudioBuffer, data: &Vec<i16>, channels: usize)
    requires
        channels >= 1,
        old(buf).wf(),
    ensures
        final(buf)@ == old(buf)@ + input_seq_i16(data@, channels as int),
        final(buf).wf(),
{
    let n: usize = data.len();
    if n == 0 {
        proof {
            assert(frames_of(0, channels as int) == 0) by {
                lemma_basic_div(channels as int - 1, channels as int);
            }
            assert(buf@ =~= old(buf)@ + input_seq_i16(data@, channels as int));
        }
        return;
    }
    let frames: usize = 1 + (n - 1) / channels;
    proof {
        assert(channels as int + (n - 1) as int == (n as int + channels as int - 1));
        lemma_div_plus_one((n - 1) as int, channels as int);
    }
    let mut f: usize = 0;
    proof {
        assert(buf@ =~= old(buf)@ + input_seq_i16(data@, channels as int).take(0));
    }
    while f < frames
        invariant
            channels >= 1,
            n == data@.len(),
            1 <= n,
            frames == frames_of(n as int, channels as int),
            f <= frames,
            old(buf).wf(),
            buf.wf(),
            buf@ == old(buf)@ + input_seq_i16(data@, channels as int).take(f as int),
        decreases frames - f,
    {
        proof {
            lemma_first_slot_in_bounds(f as int, n as int, channels as int);
        }
        let idx: usize = f * channels;
        let v: i64 = sample_from_i16(data[idx]);
        buf.push_sample(v);
        f += 1;
        proof {
            assert(buf@ =~= old(buf)@ + input_seq_i16(data@, channels as int).take(f as int));
        }
    }
    proof {
        assert(input_seq_i16(data@, channels as int).take(frames as int) =~= input_seq_i16(
            data@,
            channels as int,
        ));
    }
}

/// Appends the first slot of each captured frame to the buffer, converted
/// from the unsigned 16-bit wire format, in order.
pub fn capture_input_u16(buf: &mut AudioBuffer, data: &Vec<u16>, channels: usize)
    requires
        channels >= 1,
        old(buf).wf(),
    ensures
        final(buf)@ == old(buf)@ + input_seq_u16(data@, channels as int),
        final(buf).wf(),
{
    let n: usize = data.len();
    if n == 0 {
        proof {
            assert(frames_of(0, channels as int) == 0) by {
                lemma_basic_div(channels as int - 1, channels as int);
            }
            assert(buf@ =~= old(buf)@ + input_seq_u16(data@, channels as int));
        }
        return;
    }
    let frames: usize = 1 + (n - 1) / channels;
    proof {
        assert(channels as int + (n - 1) as int == (n as int + channels as int - 1));
        lemma_div_plus_one((n - 1) as int, channels as int);
    }
    let mut f: usize = 0;
    proof {
        assert(buf@ =~= old(buf)@ + input_seq_u16(data@, channels as int).take(0));
    }
    while f < frames
        invariant
            channels >= 1,
            n == data@.len(),
            1 <= n,
            frames == frames_of(n as int, channels as int),
            f <= frames,
            old(buf).wf(),
            buf.wf(),
            buf@ == old(buf)@ + input_seq_u16(data@, channels as int).take(f as int),
        decreases frames - f,
    {
        proof {
            lemma_first_slot_in_bounds(f as int, n as int, channels as int);
        }
        let idx: usize = f * channels;
        let v: i64 = sample_from_u16(data[idx]);
        buf.push_sample(v);
        f += 1;
        proof {
            assert(buf@ =~= old(buf)@ + input_seq_u16(data@, channels as int).take(f as int));
        }
    }
    proof {
        assert(input_seq_u16(data@, channels as int).take(frames as int) =~= input_seq_u16(
            data@,
            channels as int,
        ));
    }
}

/// Running phase of the synthetic self-test tone, wrapped modulo the sample
/// rate. The tone itself (a fixed-frequency sine of this phase) is computed
/// where floating point lives, outside the verified engine; the state update
/// here is what makes the phase well defined across callback invocations.
pub struct BeepState {
    pub phase: u32,
    pub sample_rate: u32,
}

impl BeepState {
    /// The phase is always a position within one second of samples.
    pub open spec fn wf(&self) -> bool {
        1 <= self.sample_rate && self.phase < self.sample_rate
    }

    /// Starts the accumulator at phase zero.
    pub fn new(sample_rate: u32) -> (b: BeepState)
        requires
            sample_rate >= 1,
        ensures
            b.phase == 0,
            b.sample_rate == sample_rate,
            b.wf(),
    {
        BeepState { phase: 0, sample_rate }
    }

    /// Steps the accumulator by one sample and returns the new phase.
    pub fn advance(&mut self) -> (p: u32)
        requires
            old(self).wf(),
        ensures
            final(self).sample_rate == old(self).sample_rate,
            final(self).phase as int == (old(self).phase + 1) % (old(self).sample_rate as int),
            p == final(self).phase,
            final(self).wf(),
    {
        self.phase = (self.phase + 1) % self.sample_rate;
        self.phase
    }
}

} // verus!
