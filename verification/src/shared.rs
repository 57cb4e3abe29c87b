//! The rolling window as the capture thread and the drawing loop share it.

use vstd::prelude::*;
use std::sync::{Arc, Mutex, MutexGuard};
use crate::lock::{guarded, guarded_mut, lock_around, share, try_acquire};
use crate::sample::Sample;
use crate::window::RollingWindow;

verus! {

/// A handle to a rolling window of `N` samples that several owners share.
/// Neither side ever waits for the other: an operation that finds the
/// window in use is skipped. A handle and its clones are equal: they lead
/// to one and the same window.
#[verifier::reject_recursive_types(N)]
pub struct VisualizationWindow<const N: usize> {
    shared: Arc<Mutex<RollingWindow<N>>>,
}

impl<const N: usize> VisualizationWindow<N> {
    /// A fresh shared window of `N` silent samples.
    pub fn new() -> Self {
        VisualizationWindow { shared: Arc::new(lock_around(RollingWindow::new())) }
    }

    /// Takes hold of the window if it is free right now. While the result
    /// is kept, every other attempt on the window finds it in use.
    pub fn try_hold(&self) -> Option<MutexGuard<'_, RollingWindow<N>>> {
        try_acquire(&*self.shared)
    }

    /// Records one sample into a window that was found free, and skips the
    /// sample if the window was in use. The result says whether the sample
    /// was recorded.
    pub fn record_held(held: Option<MutexGuard<'_, RollingWindow<N>>>, sample: Sample) -> (recorded: bool)
        ensures
            recorded == held is Some,
    {
        match held {
            Some(mut guard) => {
                guarded_mut(&mut guard).record(sample);
                true
            },
            None => false,
        }
    }

    /// A copy of a window that was found free, oldest sample first, and
    /// nothing if the window was in use. A copy has exactly `N` samples.
    pub fn snapshot_held(held: Option<MutexGuard<'_, RollingWindow<N>>>) -> (samples: Option<Vec<Sample>>)
        ensures
            samples is Some == held is Some,
            samples matches Some(copy) ==> copy@.len() == N,
    {
        match held {
            Some(guard) => Some(guarded(&guard).snapshot()),
            None => None,
        }
    }

    /// The samples to draw from a window that was found free: a copy of it,
    /// unless it has no samples at all. Nothing if the window was in use.
    pub fn drawable_held(held: Option<MutexGuard<'_, RollingWindow<N>>>) -> (samples: Option<Vec<Sample>>)
        ensures
            samples is Some == (held is Some && N > 0),
            samples matches Some(copy) ==> copy@.len() == N,
    {
        match Self::snapshot_held(held) {
            Some(copy) => if copy.len() == 0 {
                None
            } else {
                Some(copy)
            },
            None => None,
        }
    }

    /// Records one sample if the window is free right now, and skips it
    /// without waiting otherwise. The result says whether the sample was
    /// recorded.
    pub fn record(&self, sample: Sample) -> (recorded: bool) {
        Self::record_held(self.try_hold(), sample)
    }

    /// A copy of the window, oldest sample first, if the window is free
    /// right now, and nothing otherwise, without waiting. Whatever was
    /// recorded or skipped before, a copy has exactly `N` samples.
    pub fn snapshot(&self) -> (samples: Option<Vec<Sample>>)
        ensures
            samples matches Some(copy) ==> copy@.len() == N,
    {
        Self::snapshot_held(self.try_hold())
    }

    /// The samples to draw for one frame: a copy of the window, or nothing
    /// when the window is in use or has no samples at all.
    pub fn drawable(&self) -> (samples: Option<Vec<Sample>>)
        ensures
            samples matches Some(copy) ==> copy@.len() == N && N > 0,
            N == 0 ==> samples is None,
    {
        Self::drawable_held(self.try_hold())
    }
}

impl<const N: usize> Clone for VisualizationWindow<N> {
    /// Another handle to the same window.
    fn clone(&self) -> (other: Self)
        ensures
            other == *self,
    {
        VisualizationWindow { shared: share(&self.shared) }
    }
}

} // verus!
