//! The event queue: a bounded FIFO buffer of key events, filled by the
//! bridge's polling side and drained by the consumer, never blocking
//! either of them.

use vstd::prelude::*;

use crate::event::KeyEvent;

verus! {

/// A bounded FIFO buffer of key events. The view is the buffered events,
/// oldest first; the capacity is fixed when the queue is made and is never
/// exceeded.
pub struct EventQueue {
    items: Vec<KeyEvent>,
    capacity: usize,
}

impl View for EventQueue {
    type V = Seq<KeyEvent>;

    closed spec fn view(&self) -> Seq<KeyEvent> {
        self.items@
    }
}

impl EventQueue {
    /// The fixed capacity the queue was made with.
    pub closed spec fn cap(self) -> int {
        self.capacity as int
    }

    /// The queue never holds more than its capacity, and a queue of
    /// capacity zero could never carry an event at all.
    pub open spec fn wf(self) -> bool {
        &&& self@.len() <= self.cap()
        &&& self.cap() >= 1
    }

    /// An empty queue that will buffer at most `capacity` events.
    pub fn new(capacity: usize) -> (q: EventQueue)
        requires
            capacity >= 1,
        ensures
            q.wf(),
            q@ == Seq::<KeyEvent>::empty(),
            q.cap() == capacity,
    {
        EventQueue { items: Vec::new(), capacity }
    }

    /// How many events are buffered right now.
    pub fn len(&self) -> (n: usize)
        ensures
            n == self@.len(),
    {
        self.items.len()
    }

    /// The fixed capacity, as the queue reports it.
    pub fn capacity(&self) -> (c: usize)
        ensures
            c == self.cap(),
    {
        self.capacity
    }

    /// Non-blocking send: appends the event if the queue has room and says
    /// so; a full queue takes nothing and drops nothing.
    pub fn try_send(&mut self, event: KeyEvent) -> (accepted: bool)
        requires
            old(self).wf(),
        ensures
            final(self).wf(),
            final(self).cap() == old(self).cap(),
            accepted == (old(self)@.len() < old(self).cap()),
            accepted ==> final(self)@ == old(self)@.push(event),
            !accepted ==> final(self)@ == old(self)@,
    {
        if self.items.len() < self.capacity {
            self.items.push(event);
            true
        } else {
            false
        }
    }

    /// Non-blocking receive: takes the oldest buffered event, or returns
    /// `None` at once when nothing is buffered.
    pub fn try_receive(&mut self) -> (r: Option<KeyEvent>)
        requires
            old(self).wf(),
        ensures
            final(self).wf(),
            final(self).cap() == old(self).cap(),
            old(self)@.len() == 0 ==> r is None && final(self)@ == old(self)@,
            old(self)@.len() > 0 ==> r == Some(old(self)@.first())
                && final(self)@ == old(self)@.drop_first(),
    {
        if self.items.len() == 0 {
            None
        } else {
            let e = self.items.remove(0);
            proof {
                assert(self.items@ =~= old(self)@.drop_first());
            }
            Some(e)
        }
    }
}

} // verus!
