use vstd::prelude::*;

use crate::event::Event;

verus! {

/// The abstract state of an event queue: the events not yet consumed, oldest
/// first, and whether a blocking wait has just drained it.
pub struct QueueView {
    pub pending: Seq<Event>,
    pub drained: bool,
}

/// What one step of a blocking wait decided.
#[derive(Debug, Clone, Copy, PartialEq, Eq)]
pub enum WaitStep {
    /// The previous wait drained the queue: the caller should stop looping.
    Drained,
    /// Nothing is queued: the caller blocks until a push, then steps again.
    Blocked,
    /// The oldest event was handed out.
    Delivered,
}

/// The state after `e` is appended: a push always cancels the drained mark.
pub open spec fn pushed(q: QueueView, e: Event) -> QueueView {
    QueueView { pending: q.pending.push(e), drained: false }
}

/// Whether a poll finds an event, the event it writes out, and the state after it.
pub open spec fn poll_outcome(q: QueueView) -> (bool, Event, QueueView) {
    if q.pending.len() == 0 {
        (false, Event::Empty, q)
    } else {
        (true, q.pending[0], QueueView { pending: q.pending.drop_first(), drained: q.drained })
    }
}

/// What a wait step decides on `q`, the event it hands out if any, and the
/// state after it.
pub open spec fn wait_outcome(q: QueueView) -> (WaitStep, Option<Event>, QueueView) {
    if q.drained {
        (WaitStep::Drained, None, QueueView { pending: q.pending, drained: false })
    } else if q.pending.len() == 0 {
        (WaitStep::Blocked, None, q)
    } else {
        (
            WaitStep::Delivered,
            Some(q.pending[0]),
            QueueView { pending: q.pending.drop_first(), drained: q.pending.len() == 1 },
        )
    }
}

/// The state after `es` are pushed in order onto `q`.
pub open spec fn pushed_all(q: QueueView, es: Seq<Event>) -> QueueView
    decreases es.len(),
{
    if es.len() == 0 {
        q
    } else {
        pushed(pushed_all(q, es.drop_last()), es.last())
    }
}

/// The state after `n` polls of `q`.
pub open spec fn polled(q: QueueView, n: nat) -> QueueView
    decreases n,
{
    if n == 0 {
        q
    } else {
        poll_outcome(polled(q, (n - 1) as nat)).2
    }
}

proof fn lemma_pushed_all_pending(q: QueueView, es: Seq<Event>)
    ensures
        pushed_all(q, es).pending == q.pending + es,
        es.len() > 0 ==> !pushed_all(q, es).drained,
        es.len() == 0 ==> pushed_all(q, es) == q,
    decreases es.len(),
{
    if es.len() > 0 {
        lemma_pushed_all_pending(q, es.drop_last());
        assert(q.pending + es == (q.pending + es.drop_last()).push(es.last()));
    }
}

proof fn lemma_polled_pending(q: QueueView, n: nat)
    requires
        n <= q.pending.len(),
    ensures
        polled(q, n).pending == q.pending.subrange(n as int, q.pending.len() as int),
    decreases n,
{
    if n > 0 {
        lemma_polled_pending(q, (n - 1) as nat);
        let p = polled(q, (n - 1) as nat);
        assert(p.pending.drop_first() == q.pending.subrange(n as int, q.pending.len() as int));
    }
}

/// First in, first out: after events `es` are pushed onto a queue with no
/// poll between them, consecutive polls find first the events that were
/// already queued and then `es`, each in the order it came; the poll after
/// all of them finds nothing and writes `Empty`. On an empty queue the `i`-th
/// poll finds `es[i]`.
pub proof fn lemma_fifo(q: QueueView, es: Seq<Event>)
    ensures
        forall|i: nat|
            i < q.pending.len() + es.len() ==> {
                let o = #[trigger] poll_outcome(polled(pushed_all(q, es), i));
                o.0 && o.1 == (q.pending + es)[i as int] && o.2 == polled(pushed_all(q, es), i + 1)
            },
        q.pending.len() == 0 ==> forall|i: nat|
            i < es.len() ==> (#[trigger] poll_outcome(polled(pushed_all(q, es), i))).1 == es[i as int],
        !poll_outcome(polled(pushed_all(q, es), q.pending.len() + es.len())).0,
        poll_outcome(polled(pushed_all(q, es), q.pending.len() + es.len())).1 == Event::Empty,
{
    let p = pushed_all(q, es);
    let all = q.pending + es;
    lemma_pushed_all_pending(q, es);
    assert(p.pending == all);
    assert forall|i: nat| i < all.len() implies {
        let o = #[trigger] poll_outcome(polled(p, i));
        o.0 && o.1 == all[i as int] && o.2 == polled(p, i + 1)
    } by {
        lemma_polled_pending(p, i);
    }
    if q.pending.len() == 0 {
        assert(all == es);
    }
    lemma_polled_pending(p, all.len());
}

/// A wait that hands out the last queued event marks the queue drained: the
/// next wait answers `Drained` at once, consumes nothing, and clears the mark.
pub proof fn lemma_drain_then_arm(q: QueueView)
    requires
        wait_outcome(q).0 == WaitStep::Delivered,
        wait_outcome(q).2.pending.len() == 0,
    ensures
        wait_outcome(wait_outcome(q).2).0 == WaitStep::Drained,
        wait_outcome(wait_outcome(q).2).1 is None,
        wait_outcome(wait_outcome(q).2).2.pending == wait_outcome(q).2.pending,
        !wait_outcome(wait_outcome(q).2).2.drained,
{
}

/// A push cancels the drained mark: the next wait hands out the oldest queued
/// event instead of answering `Drained`. When the queue was empty before the
/// push, that is the pushed event, and the wait drains the queue again.
pub proof fn lemma_push_rearms(q: QueueView, e: Event)
    ensures
        !pushed(q, e).drained,
        pushed(q, e).pending == q.pending.push(e),
        wait_outcome(pushed(q, e)).0 == WaitStep::Delivered,
        q.pending.len() == 0 ==> wait_outcome(pushed(q, e)).1 == Some(e),
        q.pending.len() == 0 ==> wait_outcome(pushed(q, e)).2.pending.len() == 0,
        q.pending.len() == 0 ==> wait_outcome(pushed(q, e)).2.drained,
        q.pending.len() > 0 ==> wait_outcome(pushed(q, e)).1 == Some(q.pending[0]),
{
}

/// An ordered buffer of events with a one-shot "drained" mark used by
/// blocking consumption.
pub struct EventQueue {
    events: Vec<Event>,
    drained: bool,
}

impl View for EventQueue {
    type V = QueueView;

    closed spec fn view(&self) -> QueueView {
        QueueView { pending: self.events@, drained: self.drained }
    }
}

impl EventQueue {
    /// No event is ever queued as `Empty`.
    pub open spec fn wf(&self) -> bool {
        forall|i: int| 0 <= i < self@.pending.len() ==> !(#[trigger] self@.pending[i] is Empty)
    }

    /// An empty queue, not drained.
    pub fn new() -> (r: EventQueue)
        ensures
            r.wf(),
            r@.pending.len() == 0,
            !r@.drained,
    {
        EventQueue { events: Vec::new(), drained: false }
    }

    /// The number of queued events.
    pub fn len(&self) -> (r: usize)
        ensures
            r == self@.pending.len(),
    {
        self.events.len()
    }

    /// Appends a copy of `event` at the tail and clears the drained mark.
    pub fn push_event(&mut self, event: &Event)
        requires
            old(self).wf(),
            !(*event is Empty),
        ensures
            final(self).wf(),
            final(self)@ == pushed(old(self)@, *event),
    {
        self.events.push(event.duplicate());
        self.drained = false;
    }

    /// Non-blocking consumption: removes the oldest event into `event` and
    /// returns `true`, or writes `Empty` and returns `false` when nothing is
    /// queued. The drained mark is left as it is.
    pub fn poll(&mut self, event: &mut Event) -> (r: bool)
        requires
            old(self).wf(),
        ensures
            final(self).wf(),
            (r, *final(event), final(self)@) == poll_outcome(old(self)@),
    {
        if self.events.len() == 0 {
            *event = Event::Empty;
            return false;
        }
        *event = self.events.remove(0);
        true
    }

    /// One step of blocking consumption. If the previous step drained the
    /// queue, clears that mark and answers `Drained`; otherwise, with nothing
    /// queued, answers `Blocked` and changes nothing; otherwise moves the
    /// oldest event into `event`, marks the queue drained if it is now empty,
    /// and answers `Delivered`.
    pub fn wait_step(&mut self, event: &mut Event) -> (r: WaitStep)
        requires
            old(self).wf(),
        ensures
            final(self).wf(),
            r == wait_outcome(old(self)@).0,
            final(self)@ == wait_outcome(old(self)@).2,
            wait_outcome(old(self)@).1 matches Some(e) ==> *final(event) == e,
            wait_outcome(old(self)@).1 is None ==> *final(event) == *old(event),
    {
        if self.drained {
            self.drained = false;
            return WaitStep::Drained;
        }
        if self.events.len() == 0 {
            return WaitStep::Blocked;
        }
        *event = self.events.remove(0);
        self.drained = self.events.len() == 0;
        WaitStep::Delivered
    }
}

} // verus!
