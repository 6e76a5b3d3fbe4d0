//! Rolling windows of monitor samples.
//!
//! A series holds at most [`MAX_SAMPLES`] `(elapsed-ms, value-centi)` points;
//! recording into a full series evicts the oldest point first.

use vstd::prelude::*;

verus! {

/// The cap on the number of samples a series keeps.
pub const MAX_SAMPLES: usize = 100;

/// A bounded, rolling series of `(elapsed-ms, value-centi)` samples, oldest
/// first.
pub struct Series {
    samples: Vec<(u64, u64)>,
}

impl View for Series {
    type V = Seq<(u64, u64)>;

    closed spec fn view(&self) -> Seq<(u64, u64)> {
        self.samples@
    }
}

/// How recording one sample changes a series: it is appended at the end, and
/// when the series is already full the oldest sample is evicted first.
pub open spec fn spec_record(pre: Seq<(u64, u64)>, post: Seq<(u64, u64)>, sample: (u64, u64)) -> bool {
    if pre.len() < MAX_SAMPLES {
        post == pre.push(sample)
    } else {
        post == pre.subrange(1, MAX_SAMPLES as int).push(sample)
    }
}

/// A recorded series never exceeds the cap; once full, it stays at the cap
/// and each new sample evicts exactly the oldest one (FIFO), keeping the
/// order of the rest.
pub proof fn lemma_record_fifo(pre: Seq<(u64, u64)>, post: Seq<(u64, u64)>, sample: (u64, u64))
    requires
        pre.len() <= MAX_SAMPLES,
        spec_record(pre, post, sample),
    ensures
        post.len() <= MAX_SAMPLES,
        post.last() == sample,
        pre.len() < MAX_SAMPLES ==> post.len() == pre.len() + 1,
        pre.len() < MAX_SAMPLES ==> forall|i: int| 0 <= i < pre.len() ==> post[i] == pre[i],
        pre.len() == MAX_SAMPLES ==> post.len() == MAX_SAMPLES,
        pre.len() == MAX_SAMPLES ==> forall|i: int|
            0 <= i < MAX_SAMPLES - 1 ==> post[i] == pre[i + 1],
{
}

impl Series {
    /// A series never holds more than [`MAX_SAMPLES`] samples.
    pub open spec fn wf(&self) -> bool {
        self@.len() <= MAX_SAMPLES
    }

    /// An empty series.
    pub fn new() -> (s: Series)
        ensures
            s@ == Seq::<(u64, u64)>::empty(),
            s.wf(),
    {
        Series { samples: Vec::new() }
    }

    /// How many samples the series currently holds.
    pub fn len(&self) -> (n: usize)
        ensures
            n == self@.len(),
    {
        self.samples.len()
    }

    /// The sample at position `i` (0 is the oldest kept).
    pub fn sample(&self, i: usize) -> (s: (u64, u64))
        requires
            i < self@.len(),
        ensures
            s == self@[i as int],
    {
        self.samples[i]
    }

    /// Appends one sample; when the series is already full, the oldest
    /// sample is evicted first, so the cap is never exceeded.
    pub fn record(&mut self, elapsed_ms: u64, value_centi: u64)
        requires
            old(self).wf(),
        ensures
            final(self).wf(),
            spec_record(old(self)@, final(self)@, (elapsed_ms, value_centi)),
    {
        if self.samples.len() == MAX_SAMPLES {
            self.samples.remove(0);
            proof {
                assert(self.samples@ =~= old(self)@.subrange(1, MAX_SAMPLES as int));
            }
        }
        self.samples.push((elapsed_ms, value_centi));
    }
}

} // verus!
