//! Frame-time statistics: per-frame millisecond samples kept in a fixed ring
//! of 60 slots, indexed by `frame % 60`, with a rolling average and maximum
//! reported every 60 frames.

use vstd::prelude::*;
use vstd::arithmetic::div_mod::{
    lemma_fundamental_div_mod, lemma_mod_multiples_vanish, lemma_small_mod,
};

verus! {

/// The sum of a sequence of samples.
pub open spec fn sum_of(s: Seq<u64>) -> int
    decreases s.len(),
{
    if s.len() == 0 {
        0
    } else {
        sum_of(s.drop_last()) + s.last()
    }
}

/// The maximum of a sequence of samples, 0 for the empty sequence.
pub open spec fn max_of(s: Seq<u64>) -> u64
    decreases s.len(),
{
    if s.len() == 0 {
        0u64
    } else if s.last() >= max_of(s.drop_last()) {
        s.last()
    } else {
        max_of(s.drop_last())
    }
}

/// The ring that results from recording the whole sample history `h`, where
/// the sample of frame `i` is `h[i]`: slots start at 0 and the sample of
/// frame `i` lands in slot `i % 60`, overwriting the previous cycle's.
pub open spec fn ring_of(h: Seq<u64>) -> Seq<u64>
    decreases h.len(),
{
    if h.len() == 0 {
        Seq::new(60, |i: int| 0u64)
    } else {
        ring_of(h.drop_last()).update(((h.len() - 1) as int) % 60, h.last())
    }
}

/// The ring always has exactly 60 slots.
pub proof fn lemma_ring_len(h: Seq<u64>)
    ensures
        ring_of(h).len() == 60,
    decreases h.len(),
{
    if h.len() > 0 {
        lemma_ring_len(h.drop_last());
    }
}

/// Recording one more sample updates exactly the slot of the current frame.
pub proof fn lemma_ring_of_push(h: Seq<u64>, ms: u64)
    ensures
        ring_of(h.push(ms)) == ring_of(h).update((h.len() as int) % 60, ms),
{
    assert(h.push(ms).drop_last() =~= h);
}

/// Two frame numbers less than one full cycle apart use different slots.
proof fn lemma_mod60_distinct(a: int, b: int)
    requires
        0 <= a < b,
        b - a < 60,
    ensures
        a % 60 != b % 60,
{
    lemma_fundamental_div_mod(a, 60);
    lemma_fundamental_div_mod(b, 60);
}

/// After any history `h`, the ring holds the most recent `min(h.len(), 60)`
/// samples, each in the slot of its own frame number.
pub proof fn lemma_ring_recent(h: Seq<u64>)
    ensures
        forall|i: int|
            0 <= i < h.len() && h.len() - 60 <= i ==> ring_of(h)[i % 60] == h[i],
    decreases h.len(),
{
    if h.len() > 0 {
        let prev = h.drop_last();
        lemma_ring_recent(prev);
        lemma_ring_len(prev);
        assert forall|i: int|
            0 <= i < h.len() && h.len() - 60 <= i implies ring_of(h)[i % 60] == h[i] by {
            if i == h.len() - 1 {
                lemma_small_mod((i % 60) as nat, 60);
            } else {
                lemma_mod60_distinct(i, h.len() - 1);
                assert(ring_of(prev)[i % 60] == prev[i]);
            }
        }
    }
}

/// Slots that no frame has reached yet still hold their initial zero.
pub proof fn lemma_ring_zero_tail(h: Seq<u64>)
    requires
        h.len() <= 60,
    ensures
        forall|j: int| h.len() <= j < 60 ==> ring_of(h)[j] == 0,
    decreases h.len(),
{
    if h.len() > 0 {
        let prev = h.drop_last();
        lemma_ring_zero_tail(prev);
        lemma_ring_len(prev);
        lemma_small_mod((h.len() - 1) as nat, 60);
    }
}

/// At the end of a full cycle — a history whose length is a positive
/// multiple of 60 — the ring holds exactly the last 60 samples in order, so
/// the statistics taken over the ring are the statistics of those samples.
pub proof fn lemma_ring_window(h: Seq<u64>)
    requires
        h.len() >= 60,
        h.len() % 60 == 0,
    ensures
        ring_of(h) == h.subrange(h.len() - 60, h.len() as int),
        sum_of(ring_of(h)) == sum_of(h.subrange(h.len() - 60, h.len() as int)),
        max_of(ring_of(h)) == max_of(h.subrange(h.len() - 60, h.len() as int)),
{
    lemma_ring_recent(h);
    lemma_ring_len(h);
    let len = h.len() as int;
    let window = h.subrange(len - 60, len);
    assert forall|j: int| 0 <= j < 60 implies ring_of(h)[j] == window[j] by {
        let i = len - 60 + j;
        lemma_fundamental_div_mod(len, 60);
        assert(i == 60 * (len / 60 - 1) + j);
        lemma_mod_multiples_vanish(len / 60 - 1, j, 60);
        lemma_small_mod(j as nat, 60);
        assert(ring_of(h)[i % 60] == h[i]);
    }
    assert(ring_of(h) =~= window);
}

/// The fixed-size frame-time ring buffer.
pub struct FrameTimer {
    samples: Vec<u64>,
}

impl FrameTimer {
    /// The 60 slots, slot `j` holding the last sample of a frame with
    /// `frame % 60 == j` (or 0 if no such frame has occurred).
    pub closed spec fn view(&self) -> Seq<u64> {
        self.samples@
    }

    /// The ring always has exactly 60 slots.
    pub open spec fn wf(&self) -> bool {
        self.view().len() == 60
    }

    /// A fresh ring: all 60 slots zero, the ring of the empty history.
    pub fn new() -> (r: Self)
        ensures
            r.wf(),
            r@ == ring_of(Seq::<u64>::empty()),
    {
        let mut samples: Vec<u64> = Vec::new();
        let mut i: usize = 0;
        while i < 60
            invariant
                i <= 60,
                samples@.len() == i,
                forall|j: int| 0 <= j < i ==> samples@[j] == 0,
            decreases 60 - i,
        {
            samples.push(0);
            i += 1;
        }
        proof {
            assert(samples@ =~= ring_of(Seq::<u64>::empty()));
        }
        FrameTimer { samples }
    }

    /// Record the duration of frame `frame` in the slot `frame % 60`.
    pub fn record(&mut self, frame: u64, ms: u64)
        requires
            old(self).wf(),
        ensures
            final(self).wf(),
            final(self)@ == old(self)@.update((frame % 60) as int, ms),
    {
        let slot: usize = (frame % 60) as usize;
        self.samples.set(slot, ms);
    }

    /// The rolling statistics over all 60 slots: the arithmetic mean (rounded
    /// down to whole milliseconds) and the maximum.
    pub fn stats(&self) -> (r: (u64, u64))
        requires
            self.wf(),
        ensures
            r.0 == sum_of(self@) / 60,
            r.1 == max_of(self@),
    {
        let mut sum: u128 = 0;
        let mut max: u64 = 0;
        let mut i: usize = 0;
        while i < 60
            invariant
                i <= 60,
                self.wf(),
                sum == sum_of(self@.take(i as int)),
                sum <= i * (u64::MAX as int),
                max == max_of(self@.take(i as int)),
            decreases 60 - i,
        {
            proof {
                assert(self@.take(i + 1).drop_last() =~= self@.take(i as int));
            }
            let sample = self.samples[i];
            sum = sum + (sample as u128);
            if sample > max {
                max = sample;
            }
            i += 1;
        }
        proof {
            assert(self@.take(60) =~= self@);
        }
        ((sum / 60) as u64, max)
    }

    /// The periodic report: the rolling statistics exactly when the frame
    /// number completes a cycle (`frame % 60 == 0`), and nothing otherwise.
    pub fn maybe_stats(&self, frame: u64) -> (r: Option<(u64, u64)>)
        requires
            self.wf(),
        ensures
            frame % 60 == 0 ==> r == Some(((sum_of(self@) / 60) as u64, max_of(self@))),
            frame % 60 != 0 ==> r == None::<(u64, u64)>,
    {
        if frame % 60 == 0 {
            Some(self.stats())
        } else {
            None
        }
    }
}

} // verus!
