//! The rolling window of the most recent samples, as one owner sees it.

use vstd::prelude::*;
use crate::sample::{silence, Sample, SILENCE};

verus! {

/// What a window holds after one more sample: the oldest sample leaves and
/// the new one is appended. A window of length zero stays empty.
pub open spec fn rolled(window: Seq<Sample>, sample: Sample) -> Seq<Sample> {
    if window.len() == 0 {
        window
    } else {
        window.drop_first().push(sample)
    }
}

/// What a window holds after a run of samples, recorded first to last.
pub open spec fn rolled_all(window: Seq<Sample>, samples: Seq<Sample>) -> Seq<Sample>
    decreases samples.len(),
{
    if samples.len() == 0 {
        window
    } else {
        rolled(rolled_all(window, samples.drop_last()), samples.last())
    }
}

/// The most recent `N` samples, oldest first. The length never changes.
pub struct RollingWindow<const N: usize> {
    samples: Vec<Sample>,
}

impl<const N: usize> View for RollingWindow<N> {
    type V = Seq<Sample>;

    closed spec fn view(&self) -> Seq<Sample> {
        self.samples@
    }
}

impl<const N: usize> RollingWindow<N> {
    #[verifier::type_invariant]
    spec fn inv(self) -> bool {
        self.samples@.len() == N
    }

    /// A window of `N` silent samples.
    pub fn new() -> (window: Self)
        ensures
            window@ == silence(N as nat),
    {
        let samples = vec![SILENCE; N];
        assert(samples@ =~= silence(N as nat));
        RollingWindow { samples }
    }

    /// The number of samples in the window, which is always `N`.
    pub fn len(&self) -> (n: usize)
        ensures
            n == N,
            self@.len() == N,
    {
        proof {
            use_type_invariant(self);
        }
        N
    }

    /// Records one sample: the oldest one is evicted, the rest move up one
    /// place, and the new one becomes the last.
    pub fn record(&mut self, sample: Sample)
        ensures
            final(self)@ == rolled(old(self)@, sample),
            final(self)@.len() == N,
    {
        proof {
            use_type_invariant(&*self);
        }
        if N > 0 {
            let mut i: usize = 1;
            while i < N
                invariant
                    1 <= i <= N,
                    self.samples@.len() == N,
                    forall|j: int| 0 <= j < i - 1 ==> self.samples@[j] == old(self).samples@[j + 1],
                    forall|j: int| i - 1 <= j < N ==> self.samples@[j] == old(self).samples@[j],
                decreases N - i,
            {
                let moved = self.samples[i];
                self.samples[i - 1] = moved;
                i += 1;
            }
            self.samples[N - 1] = sample;
            assert(self.samples@ =~= rolled(old(self).samples@, sample));
        }
    }

    /// A copy of the window, oldest sample first.
    pub fn snapshot(&self) -> (samples: Vec<Sample>)
        ensures
            samples@ == self@,
            samples@.len() == N,
    {
        proof {
            use_type_invariant(self);
        }
        self.samples.clone()
    }
}

/// Recording never changes the length of a window, whatever is recorded and
/// however many samples were skipped in between.
pub proof fn lemma_window_length(window: Seq<Sample>, samples: Seq<Sample>)
    ensures
        rolled_all(window, samples).len() == window.len(),
    decreases samples.len(),
{
    if samples.len() > 0 {
        lemma_window_length(window, samples.drop_last());
    }
}

/// A window that is not empty holds, after a run of samples, the last
/// samples of the old window followed by the run: as many as its length.
pub proof fn lemma_window_keeps_latest(window: Seq<Sample>, samples: Seq<Sample>)
    requires
        window.len() > 0,
    ensures
        rolled_all(window, samples) == (window + samples).skip(samples.len() as int),
    decreases samples.len(),
{
    if samples.len() == 0 {
        assert((window + samples).skip(0) =~= window);
    } else {
        let earlier = samples.drop_last();
        lemma_window_keeps_latest(window, earlier);
        lemma_window_length(window, earlier);
        assert(rolled((window + earlier).skip(earlier.len() as int), samples.last())
            =~= (window + samples).skip(samples.len() as int));
    }
}

/// A fresh window of `n` silent samples that has recorded `k` samples, `k`
/// no more than `n`, holds `n - k` silent samples followed by the recorded
/// ones in the order in which they came.
pub proof fn lemma_window_ordering(n: nat, samples: Seq<Sample>)
    requires
        samples.len() <= n,
    ensures
        rolled_all(silence(n), samples) == silence((n - samples.len()) as nat) + samples,
{
    if n == 0 {
        assert(silence(0) + samples =~= silence(0));
    } else {
        lemma_window_keeps_latest(silence(n), samples);
        assert((silence(n) + samples).skip(samples.len() as int)
            =~= silence((n - samples.len()) as nat) + samples);
    }
}

/// A fresh window of `n` silent samples that has recorded `n + 1` samples
/// holds all of them but the first, which was evicted.
pub proof fn lemma_window_eviction(n: nat, samples: Seq<Sample>)
    requires
        samples.len() == n + 1,
    ensures
        rolled_all(silence(n), samples) == samples.skip(1),
{
    if n == 0 {
        lemma_window_length(silence(0), samples);
        assert(rolled_all(silence(0), samples) =~= samples.skip(1));
    } else {
        lemma_window_keeps_latest(silence(n), samples);
        assert((silence(n) + samples).skip(samples.len() as int) =~= samples.skip(1));
    }
}

} // verus!
