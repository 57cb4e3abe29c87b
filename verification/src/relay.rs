//! The bounded relay that carries captured samples toward a consumer.

use vstd::prelude::*;
use ringbuf::{Consumer, Producer};
use crate::ring::{ring_limit, ring_linked, ring_new, ring_pop, ring_push, ring_queue, ring_split};
use crate::sample::{silence, Sample, SILENCE};

verus! {

/// What a relay of the given capacity holds after one sample is offered to
/// it: the sample is appended if there is room, and dropped if there is not.
pub open spec fn offered(queue: Seq<Sample>, capacity: nat, sample: Sample) -> Seq<Sample> {
    if queue.len() < capacity {
        queue.push(sample)
    } else {
        queue
    }
}

/// What a relay holds after a run of samples is offered to it, first to last.
pub open spec fn offered_all(queue: Seq<Sample>, capacity: nat, samples: Seq<Sample>) -> Seq<Sample>
    decreases samples.len(),
{
    if samples.len() == 0 {
        queue
    } else {
        offered(offered_all(queue, capacity, samples.drop_last()), capacity, samples.last())
    }
}

/// What is left in a relay after its oldest sample is taken out.
pub open spec fn drained(queue: Seq<Sample>) -> Seq<Sample> {
    if queue.len() > 0 {
        queue.drop_first()
    } else {
        queue
    }
}

/// The sample that a pop takes out of a relay, if it holds any.
pub open spec fn oldest(queue: Seq<Sample>) -> Option<Sample> {
    if queue.len() > 0 {
        Some(queue.first())
    } else {
        None
    }
}

/// A first-in, first-out relay of fixed capacity. A push onto a full relay
/// drops the sample; a pop from an empty relay gives nothing.
pub struct SampleRelay {
    producer: Producer<Sample>,
    consumer: Consumer<Sample>,
    capacity: usize,
}

impl View for SampleRelay {
    type V = Seq<Sample>;

    /// The samples in flight, oldest first.
    closed spec fn view(&self) -> Seq<Sample> {
        ring_queue(self.producer, self.consumer)
    }
}

impl SampleRelay {
    #[verifier::type_invariant]
    spec fn inv(self) -> bool {
        &&& ring_linked(self.producer, self.consumer)
        &&& ring_limit(self.producer) == self.capacity
        &&& ring_queue(self.producer, self.consumer).len() <= self.capacity
    }

    /// A relay that can hold `capacity` samples and starts out holding
    /// `latency` silent ones, so that a consumer draining it at a steady
    /// rate has that much buffered before it runs dry. The capacity is at
    /// least twice the latency, and its slots must fit in memory.
    pub fn new(capacity: usize, latency: usize) -> (relay: SampleRelay)
        requires
            2 * latency <= capacity,
            4 * (capacity + 1) <= isize::MAX,
        ensures
            relay@ == silence(latency as nat),
            relay.spec_capacity() == capacity,
            relay@.len() <= relay.spec_capacity(),
    {
        let (mut producer, consumer) = ring_split(ring_new(capacity));
        let mut filled: usize = 0;
        while filled < latency
            invariant
                filled <= latency <= capacity,
                ring_linked(producer, consumer),
                ring_limit(producer) == capacity,
                ring_queue(producer, consumer) == silence(filled as nat),
            decreases latency - filled,
        {
            let accepted = ring_push(&mut producer, &consumer, SILENCE);
            assert(accepted);
            assert(silence(filled as nat).push(SILENCE) =~= silence((filled + 1) as nat));
            filled += 1;
        }
        SampleRelay { producer, consumer, capacity }
    }

    /// The most samples the relay can hold.
    pub closed spec fn spec_capacity(&self) -> usize {
        self.capacity
    }

    /// The most samples the relay can hold.
    #[verifier::when_used_as_spec(spec_capacity)]
    pub fn capacity(&self) -> (limit: usize)
        ensures
            limit == self.spec_capacity(),
            self@.len() <= limit,
    {
        proof {
            use_type_invariant(self);
        }
        self.capacity
    }

    /// Offers one sample to the relay. It is appended when there is room and
    /// dropped when the relay is full; the result says which.
    pub fn push(&mut self, sample: Sample) -> (accepted: bool)
        ensures
            accepted == (old(self)@.len() < old(self).spec_capacity()),
            final(self)@ == offered(old(self)@, old(self).spec_capacity() as nat, sample),
            final(self).spec_capacity() == old(self).spec_capacity(),
            final(self)@.len() <= final(self).spec_capacity(),
    {
        proof {
            use_type_invariant(&*self);
        }
        ring_push(&mut self.producer, &self.consumer, sample)
    }

    /// Takes the oldest sample out of the relay, if there is one.
    pub fn pop(&mut self) -> (sample: Option<Sample>)
        ensures
            sample == oldest(old(self)@),
            final(self)@ == drained(old(self)@),
            final(self).spec_capacity() == old(self).spec_capacity(),
            final(self)@.len() <= final(self).spec_capacity(),
    {
        proof {
            use_type_invariant(&*self);
        }
        ring_pop(&self.producer, &mut self.consumer)
    }
}

/// One step in the life of a relay.
pub enum RelayStep {
    Push(Sample),
    Pop,
}

/// What a relay holds after one step.
pub open spec fn stepped(queue: Seq<Sample>, capacity: nat, step: RelayStep) -> Seq<Sample> {
    match step {
        RelayStep::Push(sample) => offered(queue, capacity, sample),
        RelayStep::Pop => drained(queue),
    }
}

/// What a relay holds after a run of steps, first to last.
pub open spec fn stepped_all(queue: Seq<Sample>, capacity: nat, steps: Seq<RelayStep>) -> Seq<Sample>
    decreases steps.len(),
{
    if steps.len() == 0 {
        queue
    } else {
        stepped(stepped_all(queue, capacity, steps.drop_last()), capacity, steps.last())
    }
}

/// What a relay holds after `count` pops.
pub open spec fn drained_times(queue: Seq<Sample>, count: nat) -> Seq<Sample>
    decreases count,
{
    if count == 0 {
        queue
    } else {
        drained(drained_times(queue, (count - 1) as nat))
    }
}

/// Whatever is pushed and popped, in whatever order, a relay never holds
/// more samples than its capacity.
pub proof fn lemma_capacity_never_exceeded(queue: Seq<Sample>, capacity: nat, steps: Seq<RelayStep>)
    requires
        queue.len() <= capacity,
    ensures
        stepped_all(queue, capacity, steps).len() <= capacity,
    decreases steps.len(),
{
    if steps.len() > 0 {
        lemma_capacity_never_exceeded(queue, capacity, steps.drop_last());
    }
}

/// A relay that is offered a run of samples takes the first of them, as
/// many as it has room for, and drops the rest.
pub proof fn lemma_offered_all(queue: Seq<Sample>, capacity: nat, samples: Seq<Sample>)
    requires
        queue.len() <= capacity,
    ensures
        samples.len() <= capacity - queue.len() ==> offered_all(queue, capacity, samples) == queue + samples,
        samples.len() > capacity - queue.len() ==> offered_all(queue, capacity, samples) == queue
            + samples.take(capacity - queue.len()),
    decreases samples.len(),
{
    let room = capacity - queue.len();
    if samples.len() == 0 {
        assert(queue + samples =~= queue);
    } else {
        let earlier = samples.drop_last();
        lemma_offered_all(queue, capacity, earlier);
        if samples.len() <= room {
            assert((queue + earlier).push(samples.last()) =~= queue + samples);
        } else if earlier.len() <= room {
            assert(earlier =~= samples.take(room));
        } else {
            assert(earlier.take(room) =~= samples.take(room));
        }
    }
}

/// A relay that holds `latency` silent samples and nothing else gives a
/// silent sample at each of the first `latency` pops, and nothing at the
/// pop after them.
pub proof fn lemma_prefill_latency(latency: nat, count: nat)
    requires
        count <= latency,
    ensures
        drained_times(silence(latency), count) == silence((latency - count) as nat),
        count < latency ==> oldest(drained_times(silence(latency), count)) == Some(SILENCE),
        count == latency ==> oldest(drained_times(silence(latency), count)) == None::<Sample>,
    decreases count,
{
    if count > 0 {
        lemma_prefill_latency(latency, (count - 1) as nat);
        assert(drained(silence((latency - count + 1) as nat)) =~= silence((latency - count) as nat));
    }
}

} // verus!
