//! The event bus: one stream of events, fanned out to every subscription
//! through a bounded buffer of its own.

use crate::types::{Event, EventView};
use std::collections::VecDeque;
use vstd::prelude::*;

verus! {

/// Why the bus refused an operation.
#[derive(Debug, PartialEq, Eq, Structural, Clone, Copy)]
pub enum BusError {
    /// A bus cannot buffer nothing.
    ZeroCapacity,
    /// Handlers register before the bus starts.
    AlreadyStarted,
    /// The publish side is closed.
    Closed,
    /// No live subscription goes by that number.
    NoSuchSubscription,
}

/// What a subscription yields when asked for its next event.
#[derive(Debug)]
pub enum Received {
    /// The oldest event that is still buffered.
    Event(Event),
    /// This many events were dropped since the last receive. The next
    /// receive resumes from the oldest event that was retained.
    Lagged(u64),
    /// Nothing is buffered; the publish side is still open.
    Empty,
    /// Nothing is buffered and nothing will come: the handler's loop ends.
    Closed,
}

/// Mathematical value of a `Received`.
pub enum ReceivedView {
    Event(EventView),
    Lagged(nat),
    Empty,
    Closed,
}

impl View for Received {
    type V = ReceivedView;

    open spec fn view(&self) -> ReceivedView {
        match self {
            Received::Event(e) => ReceivedView::Event(e@),
            Received::Lagged(n) => ReceivedView::Lagged(*n as nat),
            Received::Empty => ReceivedView::Empty,
            Received::Closed => ReceivedView::Closed,
        }
    }
}

/// How a handler's task ended.
#[derive(Debug, PartialEq, Eq, Structural, Clone, Copy)]
pub enum HandlerExit {
    /// Its loop returned, as after `Shutdown`.
    Finished,
    /// It failed in a way that the bus cannot recover from.
    Fatal,
}

/// What the bus is to do after a handler's task ended.
#[derive(Debug, PartialEq, Eq, Structural, Clone, Copy)]
pub enum BusVerdict {
    /// Other handlers are still running.
    Running,
    /// Every handler has returned: the run ends well.
    Finished,
    /// A handler failed: the run ends with that failure, at once.
    Failed,
}

/// Mathematical value of one subscription.
pub struct SubscriberView {
    /// The buffered events, oldest first.
    pub buffer: Seq<EventView>,
    /// How many events were dropped since the last receive.
    pub missed: nat,
    /// Whether the handler behind it is still running.
    pub live: bool,
}

/// Mathematical value of an `EventBus`.
pub struct BusView {
    pub capacity: nat,
    pub subs: Seq<SubscriberView>,
    pub started: bool,
    pub closed: bool,
}

/// The count of drops after one more, held at the greatest value that
/// fits.
pub open spec fn one_more(missed: nat) -> nat {
    if missed < u64::MAX {
        missed + 1
    } else {
        missed
    }
}

/// The subscription after `e` was delivered to it: `e` is the newest
/// event; where the buffer was full, its oldest event is gone and counted
/// as missed.
pub open spec fn deliver(sub: SubscriberView, e: EventView, capacity: nat) -> SubscriberView {
    if !sub.live {
        sub
    } else if sub.buffer.len() >= capacity && sub.buffer.len() > 0 {
        SubscriberView {
            buffer: sub.buffer.drop_first().push(e),
            missed: one_more(sub.missed),
            ..sub
        }
    } else {
        SubscriberView { buffer: sub.buffer.push(e), ..sub }
    }
}

/// What a receive yields from `sub`: first the gap, if there is one; then
/// the oldest buffered event; and with nothing buffered, whether more can
/// come.
pub open spec fn next_of(sub: SubscriberView, closed: bool) -> ReceivedView {
    if sub.missed > 0 {
        ReceivedView::Lagged(sub.missed)
    } else if sub.buffer.len() > 0 {
        ReceivedView::Event(sub.buffer[0])
    } else if closed {
        ReceivedView::Closed
    } else {
        ReceivedView::Empty
    }
}

/// The subscription after a receive.
pub open spec fn after_receive(sub: SubscriberView) -> SubscriberView {
    if sub.missed > 0 {
        SubscriberView { missed: 0, ..sub }
    } else if sub.buffer.len() > 0 {
        SubscriberView { buffer: sub.buffer.drop_first(), ..sub }
    } else {
        sub
    }
}

/// How many of the first `n` subscriptions are live.
pub open spec fn live_among(subs: Seq<SubscriberView>, n: int) -> nat
    decreases n,
{
    if n <= 0 {
        0
    } else {
        live_among(subs, n - 1) + if subs[n - 1].live {
            1nat
        } else {
            0nat
        }
    }
}

impl BusView {
    /// Every buffer is within the capacity, and the capacity is not zero.
    pub open spec fn wf(self) -> bool {
        &&& self.capacity > 0
        &&& forall|i: int|
            0 <= i < self.subs.len() ==> (#[trigger] self.subs[i]).buffer.len() <= self.capacity
    }

    /// How many subscriptions are live.
    pub open spec fn live_count(self) -> nat {
        live_among(self.subs, self.subs.len() as int)
    }

    /// Whether `id` names a live subscription.
    pub open spec fn is_live(self, id: int) -> bool {
        0 <= id < self.subs.len() && self.subs[id].live
    }

    /// The bus after one more handler registered.
    pub open spec fn register(self) -> BusView {
        BusView {
            subs: self.subs.push(SubscriberView { buffer: Seq::empty(), missed: 0, live: true }),
            ..self
        }
    }

    /// The bus after `e` was published: delivered to every subscription.
    pub open spec fn publish(self, e: EventView) -> BusView {
        BusView {
            subs: Seq::new(self.subs.len(), |i: int| deliver(self.subs[i], e, self.capacity)),
            ..self
        }
    }

    /// The bus after subscription `id` received.
    pub open spec fn receive(self, id: int) -> BusView {
        BusView { subs: self.subs.update(id, after_receive(self.subs[id])), ..self }
    }

    /// The bus after the handler of subscription `id` ended.
    pub open spec fn exited(self, id: int, exit: HandlerExit) -> BusView {
        BusView {
            subs: self.subs.update(
                id,
                SubscriberView { buffer: Seq::empty(), missed: 0, live: false },
            ),
            closed: self.closed || exit == HandlerExit::Fatal,
            ..self
        }
    }

    /// What the run does after the bus became `self` by the end of a
    /// handler with `exit`.
    pub open spec fn verdict(self, exit: HandlerExit) -> BusVerdict {
        if exit == HandlerExit::Fatal {
            BusVerdict::Failed
        } else if self.live_count() == 0 {
            BusVerdict::Finished
        } else {
            BusVerdict::Running
        }
    }
}

struct Subscriber {
    buffer: VecDeque<Event>,
    missed: u64,
    live: bool,
}

impl View for Subscriber {
    type V = SubscriberView;

    closed spec fn view(&self) -> SubscriberView {
        SubscriberView {
            buffer: self.buffer@.map_values(|e: Event| e@),
            missed: self.missed as nat,
            live: self.live,
        }
    }
}

/// The bus. It owns every subscription's buffer; publishing never waits
/// for a consumer.
pub struct EventBus {
    capacity: usize,
    subs: Vec<Subscriber>,
    started: bool,
    closed: bool,
}

impl View for EventBus {
    type V = BusView;

    closed spec fn view(&self) -> BusView {
        BusView {
            capacity: self.capacity as nat,
            subs: self.subs@.map_values(|s: Subscriber| s@),
            started: self.started,
            closed: self.closed,
        }
    }
}

impl EventBus {
    /// A bus whose subscriptions buffer up to `capacity` events each.
    pub fn new(capacity: usize) -> (r: Result<Self, BusError>)
        ensures
            match r {
                Ok(bus) => capacity > 0 && bus@ == (BusView {
                    capacity: capacity as nat,
                    subs: Seq::empty(),
                    started: false,
                    closed: false,
                }),
                Err(e) => capacity == 0 && e == BusError::ZeroCapacity,
            },
    {
        if capacity == 0 {
            return Err(BusError::ZeroCapacity);
        }
        let bus = EventBus { capacity, subs: Vec::new(), started: false, closed: false };
        assert(bus@.subs =~= Seq::<SubscriberView>::empty());
        Ok(bus)
    }

    pub fn capacity(&self) -> (n: usize)
        ensures
            n == self@.capacity,
    {
        self.capacity
    }

    pub fn is_started(&self) -> (b: bool)
        ensures
            b == self@.started,
    {
        self.started
    }

    pub fn is_closed(&self) -> (b: bool)
        ensures
            b == self@.closed,
    {
        self.closed
    }

    /// How many subscriptions were ever registered.
    pub fn subscription_count(&self) -> (n: usize)
        ensures
            n == self@.subs.len(),
    {
        self.subs.len()
    }

    /// Registers one more handler and returns the number of its
    /// subscription. Handlers register before the bus starts.
    pub fn register(&mut self) -> (r: Result<usize, BusError>)
        ensures
            match r {
                Ok(id) => !old(self)@.started && id == old(self)@.subs.len() && final(self)@ == old(
                    self,
                )@.register(),
                Err(e) => old(self)@.started && e == BusError::AlreadyStarted && final(self)@ == old(
                    self,
                )@,
            },
    {
        if self.started {
            return Err(BusError::AlreadyStarted);
        }
        let id = self.subs.len();
        let sub = Subscriber { buffer: VecDeque::new(), missed: 0, live: true };
        assert(sub@.buffer =~= Seq::<EventView>::empty());
        self.subs.push(sub);
        assert(self@.subs =~= old(self)@.register().subs);
        Ok(id)
    }

    /// Marks the bus as started: from now on nobody registers.
    pub fn start(&mut self)
        ensures
            final(self)@ == (BusView { started: true, ..old(self)@ }),
    {
        self.started = true;
    }

    /// Closes the publish side: what is buffered can still be received,
    /// then every subscription yields `Closed`.
    pub fn close(&mut self)
        ensures
            final(self)@ == (BusView { closed: true, ..old(self)@ }),
    {
        self.closed = true;
    }

    /// Publishes `event` to every live subscription and returns how many
    /// there are. A full buffer loses its oldest event; no consumer is
    /// waited for.
    pub fn publish(&mut self, event: &Event) -> (r: Result<usize, BusError>)
        ensures
            match r {
                Ok(n) => !old(self)@.closed && n == old(self)@.live_count() && final(self)@ == old(
                    self,
                )@.publish(event@),
                Err(e) => old(self)@.closed && e == BusError::Closed && final(self)@ == old(self)@,
            },
    {
        if self.closed {
            return Err(BusError::Closed);
        }
        let ghost before = self@;
        let ghost after = before.publish(event@);
        let mut delivered: usize = 0;
        let mut i: usize = 0;
        while i < self.subs.len()
            invariant
                0 <= i <= self.subs.len(),
                self.subs.len() == before.subs.len(),
                self.capacity == before.capacity,
                self.started == before.started,
                self.closed == before.closed,
                after == before.publish(event@),
                delivered == live_among(before.subs, i as int),
                delivered <= i,
                forall|j: int| 0 <= j < i ==> (#[trigger] self.subs[j])@ == after.subs[j],
                forall|j: int| i <= j < self.subs.len() ==> (#[trigger] self.subs[j])@ == before.subs[j],
            decreases self.subs.len() - i,
        {
            let ghost sub_before = self.subs[i as int]@;
            assert(sub_before == before.subs[i as int]);
            if self.subs[i].live {
                if self.subs[i].buffer.len() >= self.capacity && self.subs[i].buffer.len() > 0 {
                    let _ = self.subs[i].buffer.pop_front();
                    if self.subs[i].missed < u64::MAX {
                        self.subs[i].missed = self.subs[i].missed + 1;
                    }
                    assert(self.subs[i as int]@.buffer =~= sub_before.buffer.drop_first());
                }
                let ghost mid = self.subs[i as int]@.buffer;
                self.subs[i].buffer.push_back(event.clone());
                assert(self.subs[i as int]@.buffer =~= mid.push(event@));
                delivered = delivered + 1;
            }
            assert(self.subs[i as int]@ == deliver(sub_before, event@, before.capacity));
            i = i + 1;
        }
        assert(self@.subs =~= after.subs);
        Ok(delivered)
    }

    /// The next thing that subscription `id` is to see.
    pub fn receive(&mut self, id: usize) -> (r: Result<Received, BusError>)
        ensures
            match r {
                Ok(got) => old(self)@.is_live(id as int) && got@ == next_of(
                    old(self)@.subs[id as int],
                    old(self)@.closed,
                ) && final(self)@ == old(self)@.receive(id as int),
                Err(e) => !old(self)@.is_live(id as int) && e == BusError::NoSuchSubscription
                    && final(self)@ == old(self)@,
            },
    {
        if id >= self.subs.len() || !self.subs[id].live {
            return Err(BusError::NoSuchSubscription);
        }
        let ghost before = self@;
        let ghost sub_before = self.subs[id as int]@;
        let got = if self.subs[id].missed > 0 {
            let n = self.subs[id].missed;
            self.subs[id].missed = 0;
            Received::Lagged(n)
        } else {
            match self.subs[id].buffer.pop_front() {
                Some(e) => {
                    assert(self.subs[id as int]@.buffer =~= sub_before.buffer.drop_first());
                    Received::Event(e)
                },
                None => if self.closed {
                    Received::Closed
                } else {
                    Received::Empty
                },
            }
        };
        assert(self.subs[id as int]@ == after_receive(sub_before));
        assert(self@.subs =~= before.receive(id as int).subs);
        Ok(got)
    }

    /// Takes note that the handler of subscription `id` ended, and says
    /// what the run is to do. A fatal end closes the bus.
    pub fn handler_exited(&mut self, id: usize, exit: HandlerExit) -> (r: Result<
        BusVerdict,
        BusError,
    >)
        ensures
            match r {
                Ok(v) => old(self)@.is_live(id as int) && final(self)@ == old(self)@.exited(
                    id as int,
                    exit,
                ) && v == final(self)@.verdict(exit),
                Err(e) => !old(self)@.is_live(id as int) && e == BusError::NoSuchSubscription
                    && final(self)@ == old(self)@,
            },
    {
        if id >= self.subs.len() || !self.subs[id].live {
            return Err(BusError::NoSuchSubscription);
        }
        let ghost before = self@;
        self.subs[id].live = false;
        self.subs[id].missed = 0;
        self.subs[id].buffer.clear();
        assert(self.subs[id as int]@.buffer =~= Seq::<EventView>::empty());
        let fatal = match exit {
            HandlerExit::Fatal => true,
            HandlerExit::Finished => false,
        };
        if fatal {
            self.closed = true;
        }
        assert(self@.subs =~= before.exited(id as int, exit).subs);
        if fatal {
            return Ok(BusVerdict::Failed);
        }
        let mut live: usize = 0;
        let mut i: usize = 0;
        while i < self.subs.len()
            invariant
                0 <= i <= self.subs.len(),
                live == live_among(self@.subs, i as int),
                live <= i,
            decreases self.subs.len() - i,
        {
            if self.subs[i].live {
                live = live + 1;
            }
            i = i + 1;
        }
        if live == 0 {
            Ok(BusVerdict::Finished)
        } else {
            Ok(BusVerdict::Running)
        }
    }
}

/// The subscription after the events of `es` were delivered in order.
pub open spec fn deliver_all(sub: SubscriberView, es: Seq<EventView>, capacity: nat) -> SubscriberView
    decreases es.len(),
{
    if es.len() == 0 {
        sub
    } else {
        deliver(deliver_all(sub, es.drop_last(), capacity), es.last(), capacity)
    }
}

/// Publishing keeps every buffer within the capacity.
pub proof fn lemma_publish_keeps_wf(bus: BusView, e: EventView)
    requires
        bus.wf(),
    ensures
        bus.publish(e).wf(),
{
    let after = bus.publish(e);
    assert forall|i: int| 0 <= i < after.subs.len() implies (#[trigger] after.subs[i]).buffer.len()
        <= after.capacity by {
        assert(bus.subs[i].buffer.len() <= bus.capacity);
    }
}

/// A consumer that does not keep up loses the oldest events and nothing
/// else: after any run of publications, a live subscription holds the
/// newest events, as many as the capacity allows, in the order in which
/// they were published, and has counted each one that was dropped.
pub proof fn lemma_overflow_drops_oldest(sub: SubscriberView, es: Seq<EventView>, capacity: nat)
    requires
        capacity > 0,
        sub.live,
        sub.buffer.len() <= capacity,
        sub.missed + es.len() <= u64::MAX,
    ensures
        ({
            let all = sub.buffer + es;
            let dropped = if all.len() > capacity {
                all.len() - capacity
            } else {
                0
            };
            let after = deliver_all(sub, es, capacity);
            &&& after.live
            &&& after.buffer == all.skip(dropped)
            &&& after.missed == sub.missed + dropped
        }),
    decreases es.len(),
{
    let all = sub.buffer + es;
    if es.len() == 0 {
        assert(all =~= sub.buffer);
        assert(all.skip(0) =~= all);
    } else {
        let init = es.drop_last();
        lemma_overflow_drops_oldest(sub, init, capacity);
        let prev_all = sub.buffer + init;
        let prev = deliver_all(sub, init, capacity);
        let after = deliver(prev, es.last(), capacity);
        assert(all =~= prev_all.push(es.last()));
        let prev_dropped = if prev_all.len() > capacity {
            prev_all.len() - capacity
        } else {
            0
        };
        let dropped = if all.len() > capacity {
            all.len() - capacity
        } else {
            0
        };
        if prev.buffer.len() >= capacity {
            assert(after.buffer =~= all.skip(dropped));
        } else {
            assert(after.buffer =~= all.skip(dropped));
        }
    }
}

/// After a gap, a subscription first reports how much it missed and then
/// resumes from the oldest event that was retained.
pub proof fn lemma_gap_then_resume(sub: SubscriberView, closed: bool)
    requires
        sub.missed > 0,
        sub.buffer.len() > 0,
    ensures
        next_of(sub, closed) == ReceivedView::Lagged(sub.missed),
        after_receive(sub).buffer == sub.buffer,
        next_of(after_receive(sub), closed) == ReceivedView::Event(sub.buffer[0]),
        after_receive(after_receive(sub)).buffer == sub.buffer.drop_first(),
{
}

/// `Shutdown` travels like any other event: every live subscription with
/// room holds it as its newest event.
pub proof fn lemma_shutdown_reaches_every_handler(bus: BusView, i: int)
    requires
        bus.wf(),
        bus.is_live(i),
    ensures
        bus.publish(EventView::Shutdown).subs[i].buffer.last() == EventView::Shutdown,
        bus.publish(EventView::Shutdown).subs[i].live,
{
}

} // verus!
