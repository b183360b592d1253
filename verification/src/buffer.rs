//! The buffer between the keyboard and the store.

use crate::keyboard::{events_of, CaptureEvent, KeyStat};
use vstd::prelude::*;

verus! {

/// What a drain of the waiting events gives: the batch that is handed out,
/// which is all of them in their order, and what then waits, which is
/// nothing.
pub open spec fn drained(waiting: Seq<CaptureEvent>) -> (Seq<CaptureEvent>, Seq<CaptureEvent>) {
    (waiting, Seq::empty())
}

/// A drain that follows a drain, with no push between them, hands out
/// nothing: no event is handed out twice.
pub proof fn law_second_drain_is_empty(waiting: Seq<CaptureEvent>)
    ensures
        drained(drained(waiting).1).0 == Seq::<CaptureEvent>::empty(),
        drained(drained(waiting).1).1 == Seq::<CaptureEvent>::empty(),
{
}

/// The events waiting for the next flush, oldest first.
pub struct AggregationBuffer {
    items: Vec<KeyStat>,
}

impl View for AggregationBuffer {
    type V = Seq<CaptureEvent>;

    closed spec fn view(&self) -> Seq<CaptureEvent> {
        events_of(self.items@)
    }
}

impl AggregationBuffer {
    /// An empty buffer.
    pub fn new() -> (buffer: AggregationBuffer)
        ensures
            buffer@ == Seq::<CaptureEvent>::empty(),
    {
        AggregationBuffer { items: Vec::new() }
    }

    /// The number of waiting events.
    pub fn len(&self) -> (n: usize)
        ensures
            n == self@.len(),
    {
        self.items.len()
    }

    /// Whether no event is waiting.
    pub fn is_empty(&self) -> (empty: bool)
        ensures
            empty == (self@.len() == 0),
    {
        self.items.len() == 0
    }

    /// Appends `event` behind the events that are already waiting.
    pub fn push(&mut self, event: KeyStat)
        ensures
            final(self)@ == old(self)@.push(event@),
    {
        self.items.push(event);
    }

    /// Hands out every waiting event, oldest first, and leaves the buffer
    /// empty.
    pub fn drain_all(&mut self) -> (batch: Vec<KeyStat>)
        ensures
            (events_of(batch@), final(self)@) == drained(old(self)@),
    {
        let mut batch: Vec<KeyStat> = Vec::new();
        std::mem::swap(&mut self.items, &mut batch);
        batch
    }
}

} // verus!
