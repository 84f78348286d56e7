//! The event bridge itself: the state machine of one polling task that
//! turns a stream of blocking terminal-read outcomes into a bounded FIFO
//! queue of key events, with an optional cooperative shutdown path.
//!
//! The bridge has two states, polling and stopped, and stops for exactly
//! two reasons: the fatal backpressure fault (the queue was full when a key
//! event had to be forwarded) or an observed shutdown signal. A read fault
//! skips one iteration and polling goes on; a non-key event is discarded.
//!
//! The owner of the loop drives the bridge: each iteration it performs one
//! blocking terminal read, hands the outcome to [`Bridge::feed`], and acts
//! on the returned status. The consumer drains [`Bridge::try_receive`] at
//! its own pace.

use vstd::prelude::*;

use crate::event::kept_of;
use crate::event::key_of;
use crate::event::keys_of;
use crate::event::lemma_keys_of_append;
use crate::event::lemma_keys_of_push;
use crate::event::classify;
use crate::event::KeyEvent;
use crate::event::ReadOutcome;
use crate::queue::EventQueue;
use crate::shutdown::ShutdownSignal;
use crate::shutdown::SignalStatus;

verus! {

/// The queue capacity the bridge uses when the caller does not pick one.
pub const DEFAULT_CAPACITY: usize = 100;

/// The two states of the polling task.
#[derive(Clone, Copy, PartialEq, Eq, Debug)]
enum State {
    Polling,
    Stopped,
}

/// What one polling-loop iteration reports back to the loop's owner.
#[derive(Clone, Copy, PartialEq, Eq, Debug)]
pub enum StepStatus {
    /// Nothing ended the iteration: keep polling.
    Running,
    /// The shutdown signal was observed: the task exits cleanly.
    Stopped,
    /// The queue was full when a key event had to be forwarded: the fatal
    /// backpressure fault. The task aborts; nothing was dropped silently.
    Overflow,
}

/// What the consumer's non-blocking receive reports.
#[derive(Clone, Copy, PartialEq, Eq, Debug)]
pub enum RecvStatus {
    /// The oldest buffered key event.
    Event(KeyEvent),
    /// Nothing buffered right now, but the polling task is still running.
    Empty,
    /// Nothing buffered, and the polling task has stopped: nothing will
    /// ever arrive again.
    Closed,
}

/// The event bridge: a bounded FIFO queue of key events, the polling
/// state machine that fills it, and the one-shot shutdown handshake.
///
/// Two ghost histories record every key event ever forwarded onto the
/// queue and every event ever handed to the consumer; the well-formedness
/// invariant ties them to the queue's contents, which is what makes the
/// ordering and completeness guarantees statable.
pub struct Bridge {
    queue: EventQueue,
    shutdown: ShutdownSignal,
    cancellable: bool,
    state: State,
    overflowed: bool,
    forwarded: Ghost<Seq<KeyEvent>>,
    delivered: Ghost<Seq<KeyEvent>>,
}

impl Bridge {
    /// The events buffered right now, oldest first.
    pub closed spec fn queued(self) -> Seq<KeyEvent> {
        self.queue@
    }

    /// The fixed capacity of the queue.
    pub closed spec fn capacity(self) -> int {
        self.queue.cap()
    }

    /// Every key event forwarded onto the queue so far, in order.
    pub closed spec fn forwarded(self) -> Seq<KeyEvent> {
        self.forwarded@
    }

    /// Every event handed to the consumer so far, in order.
    pub closed spec fn delivered(self) -> Seq<KeyEvent> {
        self.delivered@
    }

    /// Whether the polling task is still running.
    pub closed spec fn polling(self) -> bool {
        self.state is Polling
    }

    /// Whether this bridge was started with a shutdown path.
    pub closed spec fn cancellable(self) -> bool {
        self.cancellable
    }

    /// Whether a shutdown signal has been sent.
    pub closed spec fn shutdown_requested(self) -> bool {
        self.shutdown.sent()
    }

    /// Whether the polling task has observed the shutdown signal.
    pub closed spec fn shutdown_observed(self) -> bool {
        self.shutdown.observed()
    }

    /// Whether the bridge hit the fatal backpressure fault.
    pub closed spec fn overflowed(self) -> bool {
        self.overflowed
    }

    /// The bridge's invariant: the queue and the handshake are well formed,
    /// what was forwarded is exactly what was delivered followed by what is
    /// still buffered, a stopped task has a cause and a running one has
    /// none, and the variant without a shutdown path never sees a signal.
    pub open spec fn wf(self) -> bool {
        &&& self.queued().len() <= self.capacity()
        &&& self.capacity() >= 1
        &&& self.delivered() + self.queued() == self.forwarded()
        &&& self.shutdown_observed() ==> self.shutdown_requested()
        &&& self.shutdown_observed() ==> !self.polling()
        &&& self.overflowed() ==> !self.polling()
        &&& !self.polling() ==> self.overflowed() || self.shutdown_observed()
        &&& !self.cancellable() ==> !self.shutdown_requested()
    }

    /// On this outcome, with the queue in this state, forwarding would hit
    /// the fatal backpressure fault.
    pub open spec fn overflows_on(self, outcome: ReadOutcome) -> bool {
        key_of(outcome) is Some && self.queued().len() >= self.capacity()
    }

    /// On this outcome the task would observe a pending shutdown signal
    /// and stop cleanly: nothing fatal happened first, the bridge has a
    /// shutdown path, and a signal is waiting.
    pub open spec fn stops_on(self, outcome: ReadOutcome) -> bool {
        &&& !self.overflows_on(outcome)
        &&& self.cancellable()
        &&& self.shutdown_requested()
    }

    /// Starts a bridge with a shutdown path and a queue of `capacity`
    /// events: polling, nothing buffered, nothing forwarded, nothing
    /// delivered, no signal sent.
    pub fn start_with_capacity(capacity: usize) -> (b: Bridge)
        requires
            capacity >= 1,
        ensures
            b.wf(),
            b.polling(),
            b.cancellable(),
            b.capacity() == capacity,
            b.queued() == Seq::<KeyEvent>::empty(),
            b.forwarded() == Seq::<KeyEvent>::empty(),
            b.delivered() == Seq::<KeyEvent>::empty(),
            !b.shutdown_requested(),
            !b.shutdown_observed(),
            !b.overflowed(),
    {
        let b = Bridge {
            queue: EventQueue::new(capacity),
            shutdown: ShutdownSignal::new(),
            cancellable: true,
            state: State::Polling,
            overflowed: false,
            forwarded: Ghost(Seq::empty()),
            delivered: Ghost(Seq::empty()),
        };
        proof {
            assert(b.delivered() + b.queued() =~= b.forwarded());
        }
        b
    }

    /// Starts a bridge with a shutdown path and the default capacity.
    pub fn start() -> (b: Bridge)
        ensures
            b.wf(),
            b.polling(),
            b.cancellable(),
            b.capacity() == DEFAULT_CAPACITY,
            b.queued() == Seq::<KeyEvent>::empty(),
            b.forwarded() == Seq::<KeyEvent>::empty(),
            b.delivered() == Seq::<KeyEvent>::empty(),
            !b.shutdown_requested(),
            !b.shutdown_observed(),
            !b.overflowed(),
    {
        Self::start_with_capacity(DEFAULT_CAPACITY)
    }

    /// Starts the variant without a shutdown path: the polling task can
    /// only ever stop through the fatal backpressure fault.
    pub fn start_without_shutdown(capacity: usize) -> (b: Bridge)
        requires
            capacity >= 1,
        ensures
            b.wf(),
            b.polling(),
            !b.cancellable(),
            b.capacity() == capacity,
            b.queued() == Seq::<KeyEvent>::empty(),
            b.forwarded() == Seq::<KeyEvent>::empty(),
            b.delivered() == Seq::<KeyEvent>::empty(),
            !b.shutdown_requested(),
            !b.shutdown_observed(),
            !b.overflowed(),
    {
        let b = Bridge {
            queue: EventQueue::new(capacity),
            shutdown: ShutdownSignal::new(),
            cancellable: false,
            state: State::Polling,
            overflowed: false,
            forwarded: Ghost(Seq::empty()),
            delivered: Ghost(Seq::empty()),
        };
        proof {
            assert(b.delivered() + b.queued() =~= b.forwarded());
        }
        b
    }

    /// One iteration of the polling loop, driven by the outcome of one
    /// blocking terminal read.
    ///
    /// A key event is forwarded onto the queue, in arrival order; a full
    /// queue is the fatal backpressure fault, which stops the task and
    /// drops nothing. A non-key event and a read fault forward nothing.
    /// When nothing fatal happened, a pending shutdown signal is observed
    /// and stops the task cleanly; otherwise polling goes on — in the
    /// variant without a shutdown path, forever.
    pub fn feed(&mut self, outcome: ReadOutcome) -> (status: StepStatus)
        requires
            old(self).wf(),
            old(self).polling(),
        ensures
            final(self).wf(),
            final(self).capacity() == old(self).capacity(),
            final(self).cancellable() == old(self).cancellable(),
            final(self).delivered() == old(self).delivered(),
            final(self).shutdown_requested() == old(self).shutdown_requested(),
            status == (if old(self).overflows_on(outcome) {
                StepStatus::Overflow
            } else if old(self).stops_on(outcome) {
                StepStatus::Stopped
            } else {
                StepStatus::Running
            }),
            final(self).polling() == (status is Running),
            final(self).overflowed() == (status is Overflow),
            final(self).shutdown_observed() == (status is Stopped),
            key_of(outcome) is None ==> final(self).queued() == old(self).queued()
                && final(self).forwarded() == old(self).forwarded(),
            key_of(outcome) is Some && old(self).queued().len() < old(self).capacity()
                ==> final(self).queued() == old(self).queued().push(key_of(outcome)->Some_0)
                    && final(self).forwarded()
                        == old(self).forwarded().push(key_of(outcome)->Some_0),
            old(self).overflows_on(outcome) ==> final(self).queued() == old(self).queued()
                && final(self).forwarded() == old(self).forwarded(),
    {
        match classify(outcome) {
            Some(k) => {
                let accepted = self.queue.try_send(k);
                if !accepted {
                    self.state = State::Stopped;
                    self.overflowed = true;
                    return StepStatus::Overflow;
                }
                self.forwarded = Ghost(self.forwarded@.push(k));
                proof {
                    assert(self.delivered@ + self.queue@ =~= self.forwarded@);
                }
            }
            None => {}
        }
        if self.cancellable {
            if self.shutdown.try_recv() {
                self.state = State::Stopped;
                return StepStatus::Stopped;
            }
        }
        StepStatus::Running
    }

    /// Feeds a whole run of read outcomes, one polling iteration each,
    /// stopping early exactly where the loop itself would stop: on the
    /// fatal backpressure fault or on observing a pending shutdown signal.
    ///
    /// While nothing stops the task, exactly the key events of the run are
    /// forwarded, in order; and nothing can stop it when the bridge has no
    /// pending shutdown signal and the queue has room for every key event
    /// of the run.
    pub fn feed_all(&mut self, outcomes: &Vec<ReadOutcome>) -> (status: StepStatus)
        requires
            old(self).wf(),
            old(self).polling(),
        ensures
            final(self).wf(),
            final(self).capacity() == old(self).capacity(),
            final(self).cancellable() == old(self).cancellable(),
            final(self).delivered() == old(self).delivered(),
            final(self).shutdown_requested() == old(self).shutdown_requested(),
            final(self).polling() == (status is Running),
            final(self).overflowed() == (status is Overflow),
            final(self).shutdown_observed() == (status is Stopped),
            status is Running ==> final(self).forwarded()
                == old(self).forwarded() + keys_of(outcomes@)
                && final(self).queued() == old(self).queued() + keys_of(outcomes@),
            status is Overflow ==> final(self).queued().len() == old(self).capacity(),
            status is Stopped ==> outcomes@.len() > 0
                && final(self).forwarded()
                    == old(self).forwarded() + kept_of(outcomes@.first())
                && final(self).queued() == old(self).queued() + kept_of(outcomes@.first()),
            (!old(self).cancellable() || !old(self).shutdown_requested())
                && old(self).queued().len() + keys_of(outcomes@).len() <= old(self).capacity()
                ==> status is Running,
    {
        let mut i: usize = 0;
        while i < outcomes.len()
            invariant
                self.wf(),
                self.polling(),
                i <= outcomes@.len(),
                self.capacity() == old(self).capacity(),
                self.cancellable() == old(self).cancellable(),
                self.delivered() == old(self).delivered(),
                self.shutdown_requested() == old(self).shutdown_requested(),
                self.forwarded() == old(self).forwarded()
                    + keys_of(outcomes@.subrange(0, i as int)),
                self.queued() == old(self).queued()
                    + keys_of(outcomes@.subrange(0, i as int)),
                i > 0 ==> !(self.cancellable() && self.shutdown_requested()),
            decreases outcomes@.len() - i,
        {
            let ghost fed = outcomes@.subrange(0, i as int);
            let ghost fed_next = outcomes@.subrange(0, i as int + 1);
            let status = self.feed(outcomes[i]);
            proof {
                assert(fed_next =~= fed.push(outcomes@[i as int]));
                lemma_keys_of_push(fed, outcomes@[i as int]);
            }
            match status {
                StepStatus::Running => {}
                StepStatus::Stopped => {
                    proof {
                        assert(i == 0);
                        assert(fed =~= Seq::<ReadOutcome>::empty());
                        assert(old(self).forwarded() + keys_of(fed) =~= old(self).forwarded());
                        assert(old(self).queued() + keys_of(fed) =~= old(self).queued());
                        assert(self.forwarded()
                            =~= old(self).forwarded() + kept_of(outcomes@.first()));
                        assert(self.queued()
                            =~= old(self).queued() + kept_of(outcomes@.first()));
                    }
                    return status;
                }
                StepStatus::Overflow => {
                    proof {
                        lemma_keys_of_append(
                            fed_next,
                            outcomes@.subrange(i as int + 1, outcomes@.len() as int),
                        );
                        assert(fed_next
                            + outcomes@.subrange(i as int + 1, outcomes@.len() as int)
                            =~= outcomes@);
                    }
                    return status;
                }
            }
            proof {
                assert(self.forwarded() =~= old(self).forwarded()
                    + keys_of(outcomes@.subrange(0, i as int + 1)));
                assert(self.queued() =~= old(self).queued()
                    + keys_of(outcomes@.subrange(0, i as int + 1)));
            }
            i += 1;
        }
        proof {
            assert(outcomes@.subrange(0, outcomes@.len() as int) =~= outcomes@);
        }
        StepStatus::Running
    }

    /// Consumer loop: receives until nothing more is buffered, and returns
    /// everything received, oldest first — the whole buffered backlog, in
    /// the order the polling side forwarded it.
    pub fn drain(&mut self) -> (events: Vec<KeyEvent>)
        requires
            old(self).wf(),
        ensures
            final(self).wf(),
            events@ == old(self).queued(),
            final(self).queued().len() == 0,
            final(self).delivered() == old(self).delivered() + old(self).queued(),
            final(self).forwarded() == old(self).forwarded(),
            final(self).capacity() == old(self).capacity(),
            final(self).cancellable() == old(self).cancellable(),
            final(self).polling() == old(self).polling(),
            final(self).overflowed() == old(self).overflowed(),
            final(self).shutdown_requested() == old(self).shutdown_requested(),
            final(self).shutdown_observed() == old(self).shutdown_observed(),
    {
        let mut events: Vec<KeyEvent> = Vec::new();
        while self.queued_len() > 0
            invariant
                self.wf(),
                events@.len() <= old(self).queued().len(),
                events@ == old(self).queued().subrange(0, events@.len() as int),
                self.queued() == old(self).queued().subrange(
                    events@.len() as int,
                    old(self).queued().len() as int,
                ),
                self.delivered() == old(self).delivered() + events@,
                self.forwarded() == old(self).forwarded(),
                self.capacity() == old(self).capacity(),
                self.cancellable() == old(self).cancellable(),
                self.polling() == old(self).polling(),
                self.overflowed() == old(self).overflowed(),
                self.shutdown_requested() == old(self).shutdown_requested(),
                self.shutdown_observed() == old(self).shutdown_observed(),
            decreases self.queued().len(),
        {
            let r = self.try_receive();
            match r {
                RecvStatus::Event(e) => {
                    events.push(e);
                    proof {
                        assert(events@ =~= old(self).queued().subrange(
                            0,
                            events@.len() as int,
                        ));
                        assert(self.queued() =~= old(self).queued().subrange(
                            events@.len() as int,
                            old(self).queued().len() as int,
                        ));
                        assert(self.delivered() =~= old(self).delivered() + events@);
                    }
                }
                RecvStatus::Empty => {}
                RecvStatus::Closed => {}
            }
        }
        proof {
            assert(events@ =~= old(self).queued());
        }
        events
    }

    /// Consumer side: non-blocking receive of the oldest buffered key
    /// event. Returns at once in every case: an event while one is
    /// buffered, `Empty` while the queue is drained but the task still
    /// polls, and `Closed` once the queue is drained and the task has
    /// stopped.
    pub fn try_receive(&mut self) -> (r: RecvStatus)
        requires
            old(self).wf(),
        ensures
            final(self).wf(),
            final(self).capacity() == old(self).capacity(),
            final(self).cancellable() == old(self).cancellable(),
            final(self).forwarded() == old(self).forwarded(),
            final(self).polling() == old(self).polling(),
            final(self).overflowed() == old(self).overflowed(),
            final(self).shutdown_requested() == old(self).shutdown_requested(),
            final(self).shutdown_observed() == old(self).shutdown_observed(),
            old(self).queued().len() > 0 ==> r == RecvStatus::Event(old(self).queued().first())
                && final(self).queued() == old(self).queued().drop_first()
                && final(self).delivered()
                    == old(self).delivered().push(old(self).queued().first()),
            old(self).queued().len() == 0 ==> final(self).queued() == old(self).queued()
                && final(self).delivered() == old(self).delivered(),
            (old(self).queued().len() == 0 && old(self).polling()) ==> r == RecvStatus::Empty,
            (old(self).queued().len() == 0 && !old(self).polling()) ==> r == RecvStatus::Closed,
    {
        match self.queue.try_receive() {
            Some(e) => {
                self.delivered = Ghost(self.delivered@.push(e));
                proof {
                    assert(self.delivered@ + self.queue@ =~= self.forwarded@);
                }
                RecvStatus::Event(e)
            }
            None => {
                match self.state {
                    State::Polling => RecvStatus::Empty,
                    State::Stopped => RecvStatus::Closed,
                }
            }
        }
    }

    /// Owner side: sends the one-shot shutdown signal. The first call is
    /// accepted; any later call — including one made after the task has
    /// already stopped — reports `AlreadySignaled` and changes nothing,
    /// and no call ever fails. Only a bridge started with a shutdown path
    /// has this handle.
    pub fn signal_shutdown(&mut self) -> (r: SignalStatus)
        requires
            old(self).wf(),
            old(self).cancellable(),
        ensures
            final(self).wf(),
            final(self).shutdown_requested(),
            r == (if old(self).shutdown_requested() {
                SignalStatus::AlreadySignaled
            } else {
                SignalStatus::Accepted
            }),
            final(self).queued() == old(self).queued(),
            final(self).forwarded() == old(self).forwarded(),
            final(self).delivered() == old(self).delivered(),
            final(self).capacity() == old(self).capacity(),
            final(self).cancellable() == old(self).cancellable(),
            final(self).polling() == old(self).polling(),
            final(self).overflowed() == old(self).overflowed(),
            final(self).shutdown_observed() == old(self).shutdown_observed(),
    {
        self.shutdown.signal()
    }

    /// How many key events are buffered right now.
    pub fn queued_len(&self) -> (n: usize)
        ensures
            n == self.queued().len(),
    {
        self.queue.len()
    }

    /// The fixed capacity of the queue.
    pub fn queue_capacity(&self) -> (c: usize)
        ensures
            c == self.capacity(),
    {
        self.queue.capacity()
    }

    /// Whether the polling task is still running.
    pub fn is_polling(&self) -> (r: bool)
        ensures
            r == self.polling(),
    {
        match self.state {
            State::Polling => true,
            State::Stopped => false,
        }
    }

    /// Whether the bridge hit the fatal backpressure fault.
    pub fn has_overflowed(&self) -> (r: bool)
        ensures
            r == self.overflowed(),
    {
        self.overflowed
    }
}

/// Law: the consumer observes exactly what the polling side forwarded, as
/// a prefix — same order, no gaps, no duplicates — and once the queue is
/// drained it has observed all of it.
pub proof fn lemma_delivery_is_ordered_prefix(b: Bridge)
    requires
        b.wf(),
    ensures
        b.delivered() == b.forwarded().subrange(0, b.delivered().len() as int),
        b.queued().len() == 0 ==> b.delivered() == b.forwarded(),
{
    assert(b.delivered() =~= b.forwarded().subrange(0, b.delivered().len() as int));
    if b.queued().len() == 0 {
        assert(b.delivered() =~= b.forwarded());
    }
}

/// Law: the queue never buffers more than its capacity, in any reachable
/// state.
pub proof fn lemma_queue_bounded(b: Bridge)
    requires
        b.wf(),
    ensures
        b.queued().len() <= b.capacity(),
{
}

/// Law: in the variant without a shutdown path, nothing can stop the
/// polling task while the consumer keeps the queue below capacity:
/// whatever the terminal produces, the iteration neither overflows nor
/// observes a shutdown, so its status is `Running` and polling goes on.
pub proof fn lemma_liveness_without_shutdown(b: Bridge, outcome: ReadOutcome)
    requires
        b.wf(),
        !b.cancellable(),
        b.queued().len() < b.capacity(),
    ensures
        !b.overflows_on(outcome),
        !b.stops_on(outcome),
{
}

/// Law: a task that is no longer polling stopped for one of exactly two
/// causes — the fatal backpressure fault or an observed shutdown signal —
/// and a task still polling has suffered neither.
pub proof fn lemma_stop_has_cause(b: Bridge)
    requires
        b.wf(),
    ensures
        !b.polling() <==> (b.overflowed() || b.shutdown_observed()),
{
}

} // verus!
