//! The worker's protocol: what the single worker of a dispatcher does next,
//! given what has happened so far.
//!
//! The worker itself awaits the request queue and runs the transfers; that is
//! the runtime's part. Here is what it decides: it takes an envelope only when
//! it is idle, serves it to the end, answers it, and goes back to the queue
//! whatever came of the transfer. It stops when the queue is closed.

use vstd::prelude::*;

verus! {

/// The state of the worker.
#[derive(Debug, Clone, Copy, PartialEq, Eq, Structural)]
pub enum Phase {
    /// The worker has no envelope and waits for the queue.
    Idle,
    /// The worker holds one envelope and serves it.
    Busy,
    /// The queue was closed; the worker has ended.
    Stopped,
}

/// What the worker is told.
#[derive(Debug, Clone, Copy, PartialEq, Eq, Structural)]
pub enum Event {
    /// The queue handed over the next envelope.
    Dequeued,
    /// The queue is closed and empty.
    Closed,
    /// The strategy has ended and the reply was sent. `failed` tells that the
    /// transfer ended in an error, `delivered` that the caller was still there
    /// to take the reply.
    Completed { failed: bool, delivered: bool },
}

/// What the worker does next.
#[derive(Debug, Clone, Copy, PartialEq, Eq, Structural)]
pub enum Action {
    /// Await the next envelope from the queue.
    Receive,
    /// Run the strategy on the envelope's transfer and send the result as the
    /// envelope's reply.
    Serve,
    /// End the worker.
    Stop,
}

/// Whether the worker, in this phase, waits for this event.
pub open spec fn expects(phase: Phase, event: Event) -> bool {
    match phase {
        Phase::Idle => event is Dequeued || event is Closed,
        Phase::Busy => event is Completed,
        Phase::Stopped => false,
    }
}

/// The phase that follows. An idle worker becomes busy with the envelope that
/// the queue hands over and ends when the queue is closed; a busy worker
/// becomes idle once its envelope is answered. An event that the worker does
/// not wait for changes nothing.
pub open spec fn react(phase: Phase, event: Event) -> Phase {
    if !expects(phase, event) {
        phase
    } else {
        match event {
            Event::Dequeued => Phase::Busy,
            Event::Closed => Phase::Stopped,
            Event::Completed { .. } => Phase::Idle,
        }
    }
}

/// What the worker does in a phase.
pub open spec fn action_in(phase: Phase) -> Action {
    match phase {
        Phase::Idle => Action::Receive,
        Phase::Busy => Action::Serve,
        Phase::Stopped => Action::Stop,
    }
}

/// The phase of a worker that started idle and was told these events in turn.
pub open spec fn after(events: Seq<Event>) -> Phase
    decreases events.len(),
{
    if events.len() == 0 {
        Phase::Idle
    } else {
        react(after(events.drop_last()), events.last())
    }
}

/// Whether the event at `i` made the worker take up an envelope.
pub open spec fn begins(events: Seq<Event>, i: int) -> bool {
    &&& 0 <= i < events.len()
    &&& events[i] is Dequeued
    &&& after(events.take(i)) is Idle
}

/// Whether the event at `i` told the worker that the envelope it held was
/// answered.
pub open spec fn completes(events: Seq<Event>, i: int) -> bool {
    &&& 0 <= i < events.len()
    &&& events[i] is Completed
    &&& after(events.take(i)) is Busy
}

/// The number of envelopes that the worker took up.
pub open spec fn begun(events: Seq<Event>) -> nat
    decreases events.len(),
{
    if events.len() == 0 {
        0
    } else {
        begun(events.drop_last()) + if begins(events, events.len() - 1) {
            1nat
        } else {
            0nat
        }
    }
}

/// The number of envelopes that the worker answered.
pub open spec fn answered(events: Seq<Event>) -> nat
    decreases events.len(),
{
    if events.len() == 0 {
        0
    } else {
        answered(events.drop_last()) + if completes(events, events.len() - 1) {
            1nat
        } else {
            0nat
        }
    }
}

/// The worker of one dispatcher.
#[derive(Debug)]
pub struct Worker {
    phase: Phase,
}

impl Worker {
    /// The worker's phase.
    pub closed spec fn phase(self) -> Phase {
        self.phase
    }

    /// A worker that has no envelope yet.
    pub fn new() -> (worker: Worker)
        ensures
            worker.phase() == Phase::Idle,
    {
        Worker { phase: Phase::Idle }
    }

    /// What the worker does next.
    pub fn action(&self) -> (action: Action)
        ensures
            action == action_in(self.phase()),
    {
        match self.phase {
            Phase::Idle => Action::Receive,
            Phase::Busy => Action::Serve,
            Phase::Stopped => Action::Stop,
        }
    }

    /// Tells the worker what has happened, and returns whether it was waiting
    /// for that.
    pub fn on(&mut self, event: Event) -> (expected: bool)
        ensures
            expected == expects(old(self).phase(), event),
            final(self).phase() == react(old(self).phase(), event),
    {
        match (self.phase, event) {
            (Phase::Idle, Event::Dequeued) => {
                self.phase = Phase::Busy;
                true
            },
            (Phase::Idle, Event::Closed) => {
                self.phase = Phase::Stopped;
                true
            },
            (Phase::Busy, Event::Completed { .. }) => {
                self.phase = Phase::Idle;
                true
            },
            _ => false,
        }
    }
}

proof fn lemma_take_step(events: Seq<Event>, m: int)
    requires
        0 <= m < events.len(),
    ensures
        after(events.take(m + 1)) == react(after(events.take(m)), events[m]),
{
    assert(events.take(m + 1).drop_last() =~= events.take(m));
}

proof fn lemma_answered_since(events: Seq<Event>, i: int, m: int)
    requires
        begins(events, i),
        i < m <= events.len(),
        !(after(events.take(m)) is Busy),
    ensures
        exists|k: int| i < k < m && completes(events, k),
    decreases m - i,
{
    lemma_take_step(events, m - 1);
    if m - 1 == i {
        assert(after(events.take(m)) is Busy);
    } else if after(events.take(m - 1)) is Busy {
        assert(completes(events, m - 1));
    } else {
        lemma_answered_since(events, i, m - 1);
        let k = choose|k: int| i < k < m - 1 && completes(events, k);
        assert(i < k < m && completes(events, k));
    }
}

/// One job at a time, in the order of the queue: where the worker took up two
/// envelopes, the first was answered before the second was taken up.
pub proof fn law_served_in_turn(events: Seq<Event>, first: int, second: int)
    requires
        begins(events, first),
        begins(events, second),
        first < second,
    ensures
        exists|k: int| first < k < second && completes(events, k),
{
    lemma_answered_since(events, first, second);
}

proof fn lemma_begun_since(events: Seq<Event>, i: int, m: int)
    requires
        completes(events, i),
        i < m <= events.len(),
        after(events.take(m)) is Busy,
    ensures
        exists|k: int| i < k < m && begins(events, k),
    decreases m - i,
{
    lemma_take_step(events, m - 1);
    if m - 1 == i {
        assert(after(events.take(m)) is Idle);
    } else if after(events.take(m - 1)) is Busy {
        lemma_begun_since(events, i, m - 1);
        let k = choose|k: int| i < k < m - 1 && begins(events, k);
        assert(i < k < m && begins(events, k));
    } else {
        assert(begins(events, m - 1));
    }
}

/// No envelope is answered twice: where the worker was told twice that the
/// envelope it held was answered, it had taken up another envelope in between.
pub proof fn law_one_answer_each(events: Seq<Event>, first: int, second: int)
    requires
        completes(events, first),
        completes(events, second),
        first < second,
    ensures
        exists|k: int| first < k < second && begins(events, k),
{
    lemma_begun_since(events, first, second);
}

/// Every envelope is answered: the worker answered as many envelopes as it
/// took up, but for the one that it holds while it is busy.
pub proof fn law_all_answered(events: Seq<Event>)
    ensures
        begun(events) == answered(events) + if after(events) is Busy {
            1nat
        } else {
            0nat
        },
    decreases events.len(),
{
    if events.len() > 0 {
        law_all_answered(events.drop_last());
        assert(events.take(events.len() - 1) =~= events.drop_last());
    }
}

/// No job ends the worker: whatever came of the transfer, and whether or not
/// the caller was still there to take the reply, a busy worker that is told
/// that its envelope is answered goes back to the queue, and takes up the next
/// envelope that the queue hands over.
pub proof fn law_worker_survives(events: Seq<Event>, failed: bool, delivered: bool)
    requires
        after(events) is Busy,
    ensures
        after(events.push(Event::Completed { failed, delivered })) is Idle,
        action_in(after(events.push(Event::Completed { failed, delivered }))) is Receive,
        after(events.push(Event::Completed { failed, delivered }).push(Event::Dequeued)) is Busy,
{
    let answered = events.push(Event::Completed { failed, delivered });
    assert(answered.drop_last() =~= events);
    assert(answered.push(Event::Dequeued).drop_last() =~= answered);
}

/// The worker ends when the queue is closed, and only then: a worker that has
/// ended was told so by the queue.
pub proof fn law_stops_when_closed(events: Seq<Event>)
    ensures
        after(events) is Stopped <==> exists|i: int|
            0 <= i < events.len() && events[i] is Closed && after(events.take(i)) is Idle,
    decreases events.len(),
{
    if events.len() > 0 {
        let last = events.len() - 1;
        let before = events.drop_last();
        law_stops_when_closed(before);
        assert(events.take(last) =~= before);
        if after(before) is Stopped {
            let i = choose|i: int|
                0 <= i < before.len() && before[i] is Closed && after(before.take(i)) is Idle;
            assert(before.take(i) =~= events.take(i));
            assert(0 <= i < events.len() && events[i] is Closed && after(events.take(i)) is Idle);
        } else if after(events) is Stopped {
            assert(events[last] is Closed && after(events.take(last)) is Idle);
        } else {
            assert forall|i: int|
                0 <= i < events.len() && events[i] is Closed implies !(after(events.take(i)) is Idle) by {
                if i < last {
                    assert(before.take(i) =~= events.take(i));
                    if after(events.take(i)) is Idle {
                        assert(0 <= i < before.len() && before[i] is Closed && after(
                            before.take(i),
                        ) is Idle);
                    }
                }
            }
        }
    }
}

} // verus!
