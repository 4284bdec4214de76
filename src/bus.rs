//! A bounded multicast bus. Every published event is appended to a ring that
//! keeps the most recent `capacity` events; every subscriber owns a cursor,
//! the sequence number of the next event it reads. A cursor that falls out
//! of the retained window is told it lagged and resumes at the head.
use std::collections::HashMap;
use vstd::prelude::*;

use crate::event::DomainEvent;

verus! {

broadcast use vstd::std_specs::hash::group_hash_axioms;

/// Number of events the process-wide bus retains.
pub const BUS_CAPACITY: usize = 16;

/// The abstract state of a bus.
pub struct BusView {
    /// Every event ever published, in publication order.
    pub history: Seq<DomainEvent>,
    /// How many of the most recent events are retained.
    pub capacity: nat,
    /// Subscriber id to the sequence number of the next event it reads.
    pub cursors: Map<u64, u64>,
    /// The id the next subscriber gets; ids are never reused.
    pub next_id: nat,
}

impl BusView {
    /// Sequence number of the oldest retained event.
    pub open spec fn oldest(self) -> nat {
        if self.history.len() <= self.capacity {
            0
        } else {
            (self.history.len() - self.capacity) as nat
        }
    }

    pub open spec fn wf(self) -> bool {
        &&& self.capacity > 0
        &&& self.history.len() <= u64::MAX
        &&& self.next_id <= u64::MAX
        &&& forall|id: u64| #[trigger]
            self.cursors.contains_key(id) ==> id < self.next_id && self.cursors[id]
                <= self.history.len()
    }
}

/// What a subscriber reads from its cursor.
#[derive(Debug, Clone, PartialEq, Eq)]
pub enum Recv {
    /// The next event, in publication order.
    Event(DomainEvent),
    /// The cursor fell out of the retained window; it now stands at the head.
    /// Carries how many events were skipped.
    Lagged(u64),
    /// Nothing has been published since the cursor's position.
    Empty,
    /// No such subscriber.
    Closed,
}

/// Failure of the bus itself: its sequence numbers or subscriber ids are used up.
#[derive(Debug, Clone, Copy, PartialEq, Eq, Structural)]
pub enum BusError {
    Exhausted,
}

/// One read by subscriber `id`, taking the bus from `pre` to `post`.
pub open spec fn recv_step(pre: BusView, id: u64, post: BusView, r: Recv) -> bool {
    if !pre.cursors.contains_key(id) {
        r == Recv::Closed && post == pre
    } else {
        let pos = pre.cursors[id];
        if pos == pre.history.len() {
            r == Recv::Empty && post == pre
        } else if pos < pre.oldest() {
            &&& r == Recv::Lagged((pre.history.len() - pos) as u64)
            &&& post == BusView { cursors: pre.cursors.insert(id, pre.history.len() as u64), ..pre }
        } else {
            &&& r == Recv::Event(pre.history[pos as int])
            &&& post == BusView { cursors: pre.cursors.insert(id, (pos + 1) as u64), ..pre }
        }
    }
}

/// `b` is a later state of the bus `a`: history only grows, the capacity stays,
/// and a cursor that exists in both has not moved back. A cursor in `b` that is
/// not in `a` belongs to a subscriber that came after `a`.
pub open spec fn evolves(a: BusView, b: BusView) -> bool {
    &&& a.history.len() <= b.history.len()
    &&& forall|i: int| 0 <= i < a.history.len() ==> #[trigger] b.history[i] == a.history[i]
    &&& a.capacity == b.capacity
    &&& a.next_id <= b.next_id
    &&& forall|id: u64| #[trigger]
        b.cursors.contains_key(id) ==> (a.cursors.contains_key(id) && a.cursors[id]
            <= b.cursors[id]) || a.next_id <= id
}

/// Delivery follows publication order. When a subscriber receives one event
/// and, at any later state of the bus, receives another, the first stands
/// earlier in the history than the second.
pub proof fn lemma_delivery_in_publication_order(
    s0: BusView,
    id: u64,
    r0: Recv,
    s1: BusView,
    s2: BusView,
    r1: Recv,
    s3: BusView,
)
    requires
        s0.wf(),
        recv_step(s0, id, s1, r0),
        evolves(s1, s2),
        recv_step(s2, id, s3, r1),
        r0 is Event,
        r1 is Event,
    ensures
        s0.cursors[id] < s2.cursors[id],
        r0 == Recv::Event(s2.history[s0.cursors[id] as int]),
        r1 == Recv::Event(s2.history[s2.cursors[id] as int]),
{
    assert(s1.cursors.contains_key(id));
    assert(s2.cursors.contains_key(id));
}

/// Lag is reported once, and nothing from before it is delivered afterwards.
/// A subscriber whose cursor stalled more than a window behind the head reads
/// `Lagged` and resumes at the head. Its next read, while at most a window of
/// events has been published since, is no lag, and whatever it delivers was
/// published after the subscriber resumed.
pub proof fn lemma_lag_recovery(
    s0: BusView,
    id: u64,
    r0: Recv,
    s1: BusView,
    s2: BusView,
    r1: Recv,
    s3: BusView,
)
    requires
        s0.wf(),
        s0.cursors.contains_key(id),
        s0.cursors[id] + s0.capacity < s0.history.len(),
        recv_step(s0, id, s1, r0),
        evolves(s1, s2),
        recv_step(s2, id, s3, r1),
        s2.history.len() <= s1.history.len() + s1.capacity,
    ensures
        r0 == Recv::Lagged((s0.history.len() - s0.cursors[id]) as u64),
        s1.cursors[id] == s0.history.len(),
        !(r1 is Lagged),
        r1 is Event ==> s2.cursors[id] >= s0.history.len() && r1 == Recv::Event(
            s2.history[s2.cursors[id] as int],
        ),
{
    assert(s1.cursors.contains_key(id));
    if s2.cursors.contains_key(id) {
        assert(s2.cursors[id] >= s1.cursors[id]);
    }
}

/// The bus. It is shared by one handle per process; all mutation goes through
/// these methods.
pub struct EventBus {
    retained: Vec<DomainEvent>,
    capacity: usize,
    published: u64,
    cursors: HashMap<u64, u64>,
    next_id: u64,
    history: Ghost<Seq<DomainEvent>>,
}

impl View for EventBus {
    type V = BusView;

    closed spec fn view(&self) -> BusView {
        BusView {
            history: self.history@,
            capacity: self.capacity as nat,
            cursors: self.cursors@,
            next_id: self.next_id as nat,
        }
    }
}

impl EventBus {
    pub closed spec fn wf(&self) -> bool {
        &&& self@.wf()
        &&& self.published as nat == self.history@.len()
        &&& self.retained@ == self.history@.subrange(self@.oldest() as int, self.history@.len() as int)
    }

    /// A well-formed bus has a well-formed view.
    pub proof fn lemma_view_wf(&self)
        requires
            self.wf(),
        ensures
            self@.wf(),
    {
    }

    /// An empty bus that retains the `capacity` most recent events.
    pub fn new(capacity: usize) -> (r: EventBus)
        requires
            capacity > 0,
        ensures
            r.wf(),
            r@ == (BusView {
                history: Seq::empty(),
                capacity: capacity as nat,
                cursors: Map::empty(),
                next_id: 0,
            }),
    {
        let r = EventBus {
            retained: Vec::new(),
            capacity,
            published: 0,
            cursors: HashMap::new(),
            next_id: 0,
            history: Ghost(Seq::empty()),
        };
        assert(r.retained@ =~= r.history@.subrange(0, 0));
        r
    }

    /// Appends `event` to the ring, dropping the oldest retained event once
    /// the ring is full. Never waits on subscribers. Returns how many
    /// subscribers are attached; none is no failure.
    pub fn publish(&mut self, event: DomainEvent) -> (r: Result<usize, BusError>)
        requires
            old(self).wf(),
        ensures
            final(self).wf(),
            final(self)@.wf(),
            evolves(old(self)@, final(self)@),
            old(self)@.cursors.len() <= usize::MAX,
            old(self)@.history.len() == u64::MAX ==> r == Err::<usize, BusError>(
                BusError::Exhausted,
            ) && final(self)@ == old(self)@,
            old(self)@.history.len() < u64::MAX ==> r == Ok::<usize, BusError>(
                old(self)@.cursors.len() as usize,
            ) && final(self)@ == (BusView { history: old(self)@.history.push(event), ..old(self)@ }),
    {
        let attached = self.cursors.len();
        if self.published == u64::MAX {
            return Err(BusError::Exhausted);
        }
        let ghost e = event;
        let ghost h = self.history@;
        let ghost lo = self@.oldest();
        if self.retained.len() == self.capacity {
            self.retained.remove(0);
        }
        self.retained.push(event);
        self.published = self.published + 1;
        self.history = Ghost(h.push(e));
        proof {
            let h2 = h.push(e);
            if h.len() < self.capacity {
                assert(self.retained@ =~= h2.subrange(0, h2.len() as int));
            } else {
                assert(self.retained@ =~= h2.subrange(lo + 1 as int, h2.len() as int));
            }
        }
        Ok(attached)
    }

    /// Attaches a new subscriber whose cursor stands at the head: it reads
    /// only what is published from now on.
    pub fn subscribe(&mut self) -> (r: Result<u64, BusError>)
        requires
            old(self).wf(),
        ensures
            final(self).wf(),
            final(self)@.wf(),
            evolves(old(self)@, final(self)@),
            old(self)@.next_id == u64::MAX ==> r == Err::<u64, BusError>(BusError::Exhausted)
                && final(self)@ == old(self)@,
            old(self)@.next_id < u64::MAX ==> r == Ok::<u64, BusError>(old(self)@.next_id as u64)
                && final(self)@ == (BusView {
                cursors: old(self)@.cursors.insert(
                    old(self)@.next_id as u64,
                    old(self)@.history.len() as u64,
                ),
                next_id: old(self)@.next_id + 1,
                ..old(self)@
            }),
    {
        if self.next_id == u64::MAX {
            return Err(BusError::Exhausted);
        }
        let id = self.next_id;
        self.cursors.insert(id, self.published);
        self.next_id = id + 1;
        Ok(id)
    }

    /// Detaches subscriber `id`, releasing its cursor.
    pub fn unsubscribe(&mut self, id: u64) -> (r: bool)
        requires
            old(self).wf(),
        ensures
            final(self).wf(),
            final(self)@.wf(),
            evolves(old(self)@, final(self)@),
            r == old(self)@.cursors.contains_key(id),
            final(self)@ == (BusView { cursors: old(self)@.cursors.remove(id), ..old(self)@ }),
    {
        self.cursors.remove(&id).is_some()
    }

    /// Number of attached subscribers.
    pub fn receiver_count(&self) -> (r: usize)
        ensures
            r == self@.cursors.len(),
    {
        self.cursors.len()
    }

    /// Whether `id` is an attached subscriber.
    pub fn is_subscribed(&self, id: u64) -> (r: bool)
        ensures
            r == self@.cursors.contains_key(id),
    {
        self.cursors.contains_key(&id)
    }

    /// Reads the next event for subscriber `id`; see `recv_step`.
    pub fn recv(&mut self, id: u64) -> (r: Recv)
        requires
            old(self).wf(),
        ensures
            final(self).wf(),
            final(self)@.wf(),
            evolves(old(self)@, final(self)@),
            recv_step(old(self)@, id, final(self)@, r),
    {
        let cur: Option<u64> = match self.cursors.get(&id) {
            Some(p) => Some(*p),
            None => None,
        };
        match cur {
            None => Recv::Closed,
            Some(pos) => {
                proof {
                    assert(self@.cursors.contains_key(id));
                    assert(self.retained@.len() == self.history@.len() - self@.oldest());
                }
                if pos == self.published {
                    Recv::Empty
                } else {
                    let oldest = self.published - self.retained.len() as u64;
                    if pos < oldest {
                        let head = self.published;
                        self.cursors.insert(id, head);
                        Recv::Lagged(head - pos)
                    } else {
                        let e = self.retained[(pos - oldest) as usize].duplicate();
                        self.cursors.insert(id, pos + 1);
                        Recv::Event(e)
                    }
                }
            }
        }
    }
}

} // verus!
