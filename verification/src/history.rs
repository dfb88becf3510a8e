use vstd::prelude::*;
use std::collections::VecDeque;

verus! {

/// The sequence `h` with one sample appended, evicting the oldest sample
/// first when `h` already holds `cap` samples.
pub open spec fn push_evict(h: Seq<i16>, s: i16, cap: int) -> Seq<i16> {
    if h.len() < cap {
        h.push(s)
    } else {
        h.subrange(1, h.len() as int).push(s)
    }
}

/// The trailing `cap` samples of `s` (all of `s` when it is short enough):
/// the contents of a bounded FIFO after `s` has been pushed through it.
pub open spec fn last_cap(s: Seq<i16>, cap: int) -> Seq<i16> {
    if s.len() <= cap {
        s
    } else {
        s.subrange(s.len() - cap, s.len() as int)
    }
}

/// Bounded rolling store of the most recent raw samples. Oldest samples are
/// evicted first once the fixed capacity is reached; the buffer is created
/// once per session and continuously overwritten, never cleared.
pub struct HistoryBuffer {
    /// The retained samples, oldest first.
    pub data: VecDeque<i16>,
    /// Fixed capacity in samples.
    pub cap: usize,
}

impl View for HistoryBuffer {
    type V = Seq<i16>;

    open spec fn view(&self) -> Seq<i16> {
        self.data@
    }
}

/// Appending one sample to a FIFO seen through `last_cap` is `push_evict`
/// on its contents.
proof fn lemma_last_cap_step(s: Seq<i16>, x: i16, cap: int)
    requires
        cap >= 1,
    ensures
        push_evict(last_cap(s, cap), x, cap) == last_cap(s.push(x), cap),
{
    if s.len() < cap {
        assert(push_evict(last_cap(s, cap), x, cap) =~= last_cap(s.push(x), cap));
    } else {
        let lc = last_cap(s, cap);
        assert(lc.len() == cap);
        assert(push_evict(lc, x, cap) =~= last_cap(s.push(x), cap));
    }
}

/// The history buffer never exceeds its configured capacity, whatever the
/// length of the input pushed through it: the retained sequence after any
/// run of pushes is at most `cap` samples long.
pub proof fn lemma_history_never_exceeds_capacity(h: Seq<i16>, samples: Seq<i16>, cap: int)
    requires
        cap >= 1,
        h.len() <= cap,
    ensures
        last_cap(h + samples, cap).len() <= cap,
{
}

impl HistoryBuffer {
    /// Structural invariant: the store never holds more than `cap` samples.
    pub open spec fn wf(&self) -> bool {
        &&& self.cap >= 1
        &&& self.data@.len() <= self.cap
    }

    /// An empty buffer with the given fixed capacity, fully pre-allocated.
    pub fn new(cap: usize) -> (r: Self)
        requires
            cap >= 1,
        ensures
            r.wf(),
            r.cap == cap,
            r@ == Seq::<i16>::empty(),
    {
        HistoryBuffer { data: VecDeque::with_capacity(cap), cap }
    }

    /// Number of samples currently retained.
    pub fn len(&self) -> (r: usize)
        ensures
            r == self@.len(),
    {
        self.data.len()
    }

    /// Append one sample, evicting the oldest first when full.
    pub fn push(&mut self, s: i16)
        requires
            old(self).wf(),
        ensures
            final(self).wf(),
            final(self).cap == old(self).cap,
            final(self)@ == push_evict(old(self)@, s, old(self).cap as int),
    {
        if self.data.len() >= self.cap {
            self.data.pop_front();
        }
        self.data.push_back(s);
    }

    /// Append every sample of a frame in order, oldest-first eviction
    /// throughout: afterwards the buffer holds the trailing `cap` samples of
    /// its old contents followed by the frame.
    pub fn push_frame(&mut self, samples: &[i16])
        requires
            old(self).wf(),
        ensures
            final(self).wf(),
            final(self).cap == old(self).cap,
            final(self)@ == last_cap(old(self)@ + samples@, old(self).cap as int),
    {
        let n = samples.len();
        let mut i: usize = 0;
        proof {
            assert(old(self)@ + samples@.take(0) =~= old(self)@);
        }
        while i < n
            invariant
                n == samples@.len(),
                i <= n,
                self.wf(),
                self.cap == old(self).cap,
                self@ == last_cap(old(self)@ + samples@.take(i as int), self.cap as int),
            decreases n - i,
        {
            proof {
                lemma_last_cap_step(old(self)@ + samples@.take(i as int), samples@[i as int], self.cap as int);
                assert((old(self)@ + samples@.take(i as int)).push(samples@[i as int])
                    =~= old(self)@ + samples@.take(i + 1));
            }
            self.push(samples[i]);
            i = i + 1;
        }
        proof {
            assert(samples@.take(n as int) =~= samples@);
        }
    }

    /// Copy out the trailing `n` samples (the most recent ones), used to
    /// recover pre-roll audio at speech onset.
    pub fn tail(&self, n: usize) -> (r: Vec<i16>)
        requires
            self.wf(),
            n <= self@.len(),
        ensures
            r@ == self@.subrange(self@.len() - n, self@.len() as int),
    {
        let len = self.data.len();
        let start = len - n;
        let mut r: Vec<i16> = Vec::new();
        let mut i: usize = start;
        while i < len
            invariant
                len == self@.len(),
                start == len - n,
                start <= i <= len,
                r@ == self@.subrange(start as int, i as int),
            decreases len - i,
        {
            r.push(self.data[i]);
            proof {
                assert(self@.subrange(start as int, i + 1)
                    =~= self@.subrange(start as int, i as int).push(self@[i as int]));
            }
            i = i + 1;
        }
        r
    }
}

} // verus!
