//! What the capture callback does with the samples that the audio driver
//! hands it.

use vstd::prelude::*;
use crate::relay::{drained, offered, offered_all, oldest, SampleRelay};
use crate::sample::Sample;
use crate::shared::VisualizationWindow;

verus! {

/// The state that the capture callback owns: the relay it feeds and a handle
/// to the window that the drawing loop reads.
#[verifier::reject_recursive_types(N)]
pub struct CallbackState<const N: usize> {
    relay: SampleRelay,
    window: VisualizationWindow<N>,
}

impl<const N: usize> CallbackState<N> {
    /// The samples in flight in the relay, oldest first.
    pub closed spec fn relayed(&self) -> Seq<Sample> {
        self.relay@
    }

    /// The most samples the relay can hold.
    pub closed spec fn relay_capacity(&self) -> nat {
        self.relay.spec_capacity() as nat
    }

    /// Callback state that feeds the given relay and window.
    pub fn new(relay: SampleRelay, window: VisualizationWindow<N>) -> (state: Self)
        ensures
            state.relayed() == relay@,
            state.relay_capacity() == relay.spec_capacity(),
            state.window_handle() == window,
    {
        CallbackState { relay, window }
    }

    /// Takes in one captured sample: offers it to the relay, which drops it
    /// if full, and records it in the window unless the window is in use.
    pub fn on_sample(&mut self, sample: Sample)
        ensures
            final(self).relayed() == offered(old(self).relayed(), old(self).relay_capacity(), sample),
            final(self).relay_capacity() == old(self).relay_capacity(),
            final(self).window_handle() == old(self).window_handle(),
    {
        self.relay.push(sample);
        self.window.record(sample);
    }

    /// Takes in one hardware buffer, given as the samples of its frames laid
    /// end to end: each sample in turn goes the way of `on_sample`. Never
    /// waits and never fails.
    pub fn on_audio_frames(&mut self, frames: &[Sample])
        ensures
            final(self).relayed() == offered_all(old(self).relayed(), old(self).relay_capacity(), frames@),
            final(self).relay_capacity() == old(self).relay_capacity(),
            final(self).window_handle() == old(self).window_handle(),
    {
        let mut taken: usize = 0;
        while taken < frames.len()
            invariant
                taken <= frames@.len(),
                self.relay_capacity() == old(self).relay_capacity(),
                self.window_handle() == old(self).window_handle(),
                self.relayed() == offered_all(old(self).relayed(), old(self).relay_capacity(), frames@.take(taken as int)),
            decreases frames@.len() - taken,
        {
            self.on_sample(frames[taken]);
            assert(frames@.take(taken + 1).drop_last() =~= frames@.take(taken as int));
            taken += 1;
        }
        assert(frames@.take(taken as int) =~= frames@);
    }

    /// The handle to the window that the callback records into.
    pub closed spec fn window_handle(&self) -> VisualizationWindow<N> {
        self.window
    }

    /// Another handle to the window that the callback records into. It is
    /// equal to the callback's own: what is recorded through the one is
    /// seen through the other.
    pub fn window(&self) -> (handle: VisualizationWindow<N>)
        ensures
            handle == self.window_handle(),
    {
        self.window.clone()
    }

    /// Takes the oldest sample out of the relay, for whoever consumes the
    /// captured audio.
    pub fn pop(&mut self) -> (sample: Option<Sample>)
        ensures
            sample == oldest(old(self).relayed()),
            final(self).relayed() == drained(old(self).relayed()),
            final(self).relay_capacity() == old(self).relay_capacity(),
            final(self).window_handle() == old(self).window_handle(),
    {
        self.relay.pop()
    }
}

} // verus!
