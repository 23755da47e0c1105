//! The handoff channel: a bounded single-producer/single-consumer queue that
//! moves processing objects from the control thread to the real-time audio
//! thread. Pushing never blocks and never displaces a queued item; popping
//! never blocks and returns the oldest item.
//!
//! The queue itself is a ring buffer of an outside crate. Its two halves
//! share one hidden buffer, so the pair is held opaquely in one struct and
//! its contents are named by `channel_items`; the contracts on `new`,
//! `try_push` and `try_pop` state what the ring buffer's source shows.

use vstd::prelude::*;

use crate::object::ProcessingObject;

verus! {

/// Fixed capacity of the handoff channel.
pub const HANDOFF_CAPACITY: usize = 2;

/// Bounded non-blocking queue of processing-object handles. The producer and
/// consumer halves of the underlying ring buffer are kept together; the
/// channel is single-producer/single-consumer by construction.
#[verifier::external_body]
pub struct HandoffChannel {
    prod: ringbuf::Producer<u64>,
    cons: ringbuf::Consumer<u64>,
}

/// The module generations queued in the channel, oldest first.
pub uninterp spec fn channel_items(ch: HandoffChannel) -> Seq<u64>;

/// A push is accepted exactly when the queue is below capacity.
pub open spec fn push_accepted(items: Seq<u64>) -> bool {
    items.len() < HANDOFF_CAPACITY
}

/// What one push leaves queued: the item is appended if the queue is below
/// capacity, otherwise the queue is unchanged.
pub open spec fn push_result(items: Seq<u64>, v: u64) -> Seq<u64> {
    if push_accepted(items) {
        items.push(v)
    } else {
        items
    }
}

impl HandoffChannel {
    /// Relies on ringbuf::RingBuffer::new and RingBuffer::split: a queue of
    /// the given capacity is created with no occupied slot.
    #[verifier::external_body]
    pub fn new() -> (r: HandoffChannel)
        ensures
            channel_items(r) == Seq::<u64>::empty(),
    {
        let (prod, cons) = ringbuf::RingBuffer::new(HANDOFF_CAPACITY).split();
        HandoffChannel { prod, cons }
    }

    /// Relies on ringbuf::Producer::push: on a full buffer it returns the
    /// element back as an error and stores nothing; otherwise it appends the
    /// element behind all queued ones.
    #[verifier::external_body]
    pub fn try_push(&mut self, obj: ProcessingObject) -> (r: bool)
        ensures
            r == push_accepted(channel_items(*old(self))),
            channel_items(*final(self)) == push_result(
                channel_items(*old(self)),
                obj.module_gen,
            ),
    {
        self.prod.push(obj.module_gen).is_ok()
    }

    /// Relies on ringbuf::Consumer::pop: on an empty buffer it returns None
    /// and changes nothing; otherwise it removes and returns the oldest
    /// queued element.
    #[verifier::external_body]
    pub fn try_pop(&mut self) -> (r: Option<ProcessingObject>)
        ensures
            channel_items(*old(self)).len() == 0 ==> {
                &&& r is None
                &&& channel_items(*final(self)) == channel_items(*old(self))
            },
            channel_items(*old(self)).len() > 0 ==> {
                &&& r == Some(ProcessingObject { module_gen: channel_items(*old(self))[0] })
                &&& channel_items(*final(self)) == channel_items(*old(self)).drop_first()
            },
    {
        self.cons.pop().map(|g| ProcessingObject { module_gen: g })
    }
}

/// The queue contents after pushing each of `vals` in order into a queue
/// holding `items`.
pub open spec fn push_all(items: Seq<u64>, vals: Seq<u64>) -> Seq<u64>
    decreases vals.len(),
{
    if vals.len() == 0 {
        items
    } else {
        push_all(push_result(items, vals[0]), vals.drop_first())
    }
}

/// Pushing items into a queue with room for all of them accepts every one
/// and appends them in push order.
pub proof fn lemma_push_all_within_capacity(items: Seq<u64>, vals: Seq<u64>)
    requires
        items.len() + vals.len() <= HANDOFF_CAPACITY,
    ensures
        push_all(items, vals) == items + vals,
    decreases vals.len(),
{
    if vals.len() == 0 {
        assert(push_all(items, vals) =~= items + vals);
    } else {
        lemma_push_all_within_capacity(items.push(vals[0]), vals.drop_first());
        assert(items.push(vals[0]) + vals.drop_first() =~= items + vals);
    }
}

/// Law: pushing at most `HANDOFF_CAPACITY` items into an empty channel
/// accepts them all and queues them in push order, so popping them one by
/// one returns the same items in the same order.
pub proof fn lemma_fifo_round_trip(vals: Seq<u64>)
    requires
        vals.len() <= HANDOFF_CAPACITY,
    ensures
        push_all(Seq::empty(), vals) == vals,
{
    lemma_push_all_within_capacity(Seq::empty(), vals);
    assert(Seq::empty() + vals =~= vals);
}

/// Law: a push against a queue already at capacity is rejected and leaves
/// the queued items exactly as they were.
pub proof fn lemma_push_full_unchanged(items: Seq<u64>, v: u64)
    requires
        items.len() >= HANDOFF_CAPACITY,
    ensures
        !push_accepted(items),
        push_result(items, v) == items,
{
}

/// Law: a queue within capacity stays within capacity across any push, so
/// the channel never holds more than `HANDOFF_CAPACITY` items.
pub proof fn lemma_capacity_preserved(items: Seq<u64>, v: u64)
    requires
        items.len() <= HANDOFF_CAPACITY,
    ensures
        push_result(items, v).len() <= HANDOFF_CAPACITY,
{
}

} // verus!
