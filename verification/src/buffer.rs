//! The FIFO sample buffer that bridges the application and the hardware
//! callback.
//!
//! The buffer is an ordered sequence of normalized samples (see
//! [`crate::sample`]); a producer appends at the tail and a consumer removes
//! at the head, so samples leave in exactly the order they entered, with no
//! duplication and no reordering. The buffer itself imposes no upper bound on
//! its length. The unverified shell shares one buffer between threads behind
//! a single mutual-exclusion lock; under that lock every operation here is a
//! plain sequence mutation, so none of them blocks on anything else.

use vstd::prelude::*;
use std::collections::VecDeque;
use crate::sample::sample_valid;

verus! {

broadcast use vstd::std_specs::vecdeque::group_vec_dequeue_axioms;

/// A FIFO of normalized fixed-point samples.
pub struct AudioBuffer {
    samples: VecDeque<i64>,
}

impl View for AudioBuffer {
    type V = Seq<i64>;

    closed spec fn view(&self) -> Seq<i64> {
        self.samples@
    }
}

impl AudioBuffer {
    /// Every buffered value is a normalized sample.
    pub open spec fn wf(&self) -> bool {
        forall|i: int| 0 <= i < self@.len() ==> sample_valid(#[trigger] self@[i])
    }

    /// Creates an empty buffer.
    pub fn new() -> (b: AudioBuffer)
        ensures
            b@ == Seq::<i64>::empty(),
            b.wf(),
    {
        AudioBuffer { samples: VecDeque::with_capacity(44100) }
    }

    /// Appends `data` to the tail, preserving its order.
    pub fn push(&mut self, data: &Vec<i64>)
        requires
            old(self).wf(),
            forall|i: int| 0 <= i < data@.len() ==> sample_valid(#[trigger] data@[i]),
        ensures
            final(self)@ == old(self)@ + data@,
            final(self).wf(),
    {
        let n: usize = data.len();
        let mut i: usize = 0;
        while i < n
            invariant
                n == data@.len(),
                i <= n,
                self@ == old(self)@ + data@.take(i as int),
                old(self).wf(),
                forall|j: int| 0 <= j < data@.len() ==> sample_valid(#[trigger] data@[j]),
            decreases n - i,
        {
            self.samples.push_back(data[i]);
            i += 1;
            proof {
                assert(self@ == old(self)@ + data@.take(i as int));
            }
        }
        proof {
            assert(data@.take(n as int) == data@);
        }
    }

    /// Appends one sample at the tail: the capture path's per-frame step.
    pub(crate) fn push_sample(&mut self, v: i64)
        requires
            old(self).wf(),
            sample_valid(v),
        ensures
            final(self)@ == old(self)@.push(v),
            final(self).wf(),
    {
        self.samples.push_back(v);
        proof {
            assert forall|i: int| 0 <= i < self@.len() implies sample_valid(
                #[trigger] self@[i],
            ) by {
                if i < old(self)@.len() {
                    assert(self@[i] == old(self)@[i]);
                } else {
                    assert(self@[i] == v);
                }
            }
        }
    }

    /// Removes and returns the head sample, or reports that the buffer is
    /// empty. Never blocks and never invents a value: on an empty buffer the
    /// caller decides what stands in (the output path substitutes silence).
    pub fn pop_one(&mut self) -> (r: Option<i64>)
        requires
            old(self).wf(),
        ensures
            old(self)@.len() == 0 ==> r is None && final(self)@ == old(self)@,
            old(self)@.len() > 0 ==> r == Some(old(self)@[0]) && final(self)@
                == old(self)@.drop_first(),
            final(self).wf(),
            r is Some ==> sample_valid(r->0),
    {
        let r = self.samples.pop_front();
        proof {
            if old(self)@.len() > 0 {
                assert(final(self)@ == old(self)@.drop_first());
            }
        }
        r
    }

    /// Discards all buffered samples: afterwards the buffer holds nothing and
    /// its length is zero.
    pub fn clear(&mut self)
        ensures
            final(self)@ == Seq::<i64>::empty(),
            final(self)@.len() == 0,
            final(self).wf(),
    {
        self.samples.clear();
    }

    /// Current sample count. Under concurrent access through the shell's lock
    /// this is advisory: it may be stale immediately after it returns.
    pub fn length(&self) -> (n: usize)
        ensures
            n == self@.len(),
    {
        self.samples.len()
    }
}

impl Default for AudioBuffer {
    /// An empty buffer.
    fn default() -> (b: AudioBuffer)
        ensures
            b@ == Seq::<i64>::empty(),
            b.wf(),
    {
        AudioBuffer::new()
    }
}

/// FIFO law. A buffer holding `pre` onto which `pushed` is appended (per
/// `push`'s contract its view is then `pre + pushed`) returns, by `pop_one`'s
/// contract — each pop yields the view's head and drops it, so the `k`-th pop
/// yields `(pre + pushed)[k]` — first all of `pre` and then exactly `pushed`,
/// in order.
pub proof fn lemma_fifo(pre: Seq<i64>, pushed: Seq<i64>, k: int)
    requires
        0 <= k < pre.len() + pushed.len(),
    ensures
        (pre + pushed).skip(k)[0] == if k < pre.len() {
            pre[k]
        } else {
            pushed[k - pre.len()]
        },
        (pre + pushed).skip(k).drop_first() == (pre + pushed).skip(k + 1),
{
    assert((pre + pushed).skip(k).drop_first() =~= (pre + pushed).skip(k + 1));
}

} // verus!
