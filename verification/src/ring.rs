//! The lock-free ring of the `ringbuf` crate, as far as the relay uses it.
//!
//! Nothing in this file is proved. Each item states what the crate's source
//! shows of one of its functions, for a caller that holds both ends of a ring
//! and so rules out any concurrent push or pop.

use vstd::prelude::*;
use ringbuf::{Consumer, Producer, RingBuffer};
use crate::sample::Sample;

verus! {

/// A ring before it is split into its two ends, opaque to the verifier.
#[verifier::external_type_specification]
#[verifier::external_body]
#[verifier::reject_recursive_types(T)]
pub struct ExRingBuffer<T: Sized>(RingBuffer<T>);

/// The writing end of a ring, opaque to the verifier.
#[verifier::external_type_specification]
#[verifier::external_body]
#[verifier::reject_recursive_types(T)]
pub struct ExProducer<T>(Producer<T>);

/// The reading end of a ring, opaque to the verifier.
#[verifier::external_type_specification]
#[verifier::external_body]
#[verifier::reject_recursive_types(T)]
pub struct ExConsumer<T>(Consumer<T>);

/// The number of samples that a ring can hold, fixed when it is made.
pub uninterp spec fn buffer_limit(ring: RingBuffer<Sample>) -> nat;

/// Whether the two ends belong to one ring.
pub uninterp spec fn ring_linked(producer: Producer<Sample>, consumer: Consumer<Sample>) -> bool;

/// The number of samples that the producer's ring can hold.
pub uninterp spec fn ring_limit(producer: Producer<Sample>) -> nat;

/// The samples that the ring of two linked ends holds, oldest first.
pub uninterp spec fn ring_queue(producer: Producer<Sample>, consumer: Consumer<Sample>) -> Seq<Sample>;

/// `RingBuffer::new`: a ring that can hold `capacity` samples. It allocates
/// `capacity + 1` slots of four bytes, which must not exceed what an
/// allocation may hold.
#[verifier::external_body]
pub(crate) fn ring_new(capacity: usize) -> (ring: RingBuffer<Sample>)
    requires
        4 * (capacity + 1) <= isize::MAX,
    ensures
        buffer_limit(ring) == capacity,
{
    RingBuffer::<Sample>::new(capacity)
}

/// `RingBuffer::split`: the two ends of the ring. They belong together and
/// keep the ring's limit. A ring that was never split holds nothing, since
/// samples enter through a producer only.
#[verifier::external_body]
pub(crate) fn ring_split(ring: RingBuffer<Sample>) -> (ends: (Producer<Sample>, Consumer<Sample>))
    ensures
        ring_linked(ends.0, ends.1),
        ring_limit(ends.0) == buffer_limit(ring),
        ring_queue(ends.0, ends.1) == Seq::<Sample>::empty(),
{
    ring.split()
}

/// `Producer::push`, called while the consumer end is borrowed too, so that
/// nothing is popped meanwhile. The sample is appended if the ring holds
/// fewer samples than its limit, and is refused otherwise, leaving the ring
/// as it was. The result says whether it was appended. The call does not
/// panic.
#[verifier::external_body]
#[allow(unused_variables)]
pub(crate) fn ring_push(producer: &mut Producer<Sample>, consumer: &Consumer<Sample>, sample: Sample) -> (accepted: bool)
    requires
        ring_linked(*old(producer), *consumer),
    ensures
        ring_linked(*final(producer), *consumer),
        ring_limit(*final(producer)) == ring_limit(*old(producer)),
        accepted == (ring_queue(*old(producer), *consumer).len() < ring_limit(*old(producer))),
        ring_queue(*final(producer), *consumer) == if accepted {
            ring_queue(*old(producer), *consumer).push(sample)
        } else {
            ring_queue(*old(producer), *consumer)
        },
    no_unwind
{
    producer.push(sample).is_ok()
}

/// `Consumer::pop`, called while the producer end is borrowed too, so that
/// nothing is pushed meanwhile. The oldest sample leaves the ring and is
/// returned; an empty ring gives `None` and stays empty. The call does not
/// panic.
#[verifier::external_body]
#[allow(unused_variables)]
pub(crate) fn ring_pop(producer: &Producer<Sample>, consumer: &mut Consumer<Sample>) -> (oldest: Option<Sample>)
    requires
        ring_linked(*producer, *old(consumer)),
    ensures
        ring_linked(*producer, *final(consumer)),
        match oldest {
            Some(sample) => {
                &&& ring_queue(*producer, *old(consumer)).len() > 0
                &&& sample == ring_queue(*producer, *old(consumer)).first()
                &&& ring_queue(*producer, *final(consumer)) == ring_queue(*producer, *old(consumer)).drop_first()
            },
            None => {
                &&& ring_queue(*producer, *old(consumer)).len() == 0
                &&& ring_queue(*producer, *final(consumer)) == ring_queue(*producer, *old(consumer))
            },
        },
    no_unwind
{
    consumer.pop()
}

} // verus!
