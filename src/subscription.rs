//! Subscription filters: each turns the bus's multicast into the sequence of
//! events one client sees. A stream reads its own cursor in order, skips what
//! its filter does not target, and treats lag as a gap, never as a failure.
use vstd::prelude::*;

use crate::bus::{BusView, EventBus, Recv};
use crate::chats::contains_id;
use crate::decode::{chat_change_event, ChatUpdated};
use crate::error::AppError;
use crate::event::{is_chat_lifecycle, is_pairing_terminal, pairing_device, DomainEvent};
use crate::models::{Chat, UserId};
use crate::text::str_eq;

verus! {

/// What a stream is interested in.
#[derive(Debug, Clone, PartialEq, Eq)]
pub enum StreamFilter {
    /// Pairing events for one device; confirmation or cancellation ends the stream.
    Pairing(String),
    /// New messages of one chat.
    ChatMessages(i64),
    /// Every chat lifecycle event.
    ChatLifecycle,
    /// New messages of the chats the user is currently a member of.
    UserMessages(UserId),
}

/// What a filter does with one event.
#[derive(Debug, Clone, Copy, PartialEq, Eq, Structural)]
pub enum Step {
    Skip,
    Deliver,
    DeliverAndEnd,
    CheckMembership,
}

/// The filter's decision on one event.
pub open spec fn step_of(f: StreamFilter, e: DomainEvent) -> Step {
    match f {
        StreamFilter::Pairing(d) => if pairing_device(e) == Some(d@) {
            if is_pairing_terminal(e) {
                Step::DeliverAndEnd
            } else {
                Step::Deliver
            }
        } else {
            Step::Skip
        },
        StreamFilter::ChatMessages(c) => match e {
            DomainEvent::NewMessage { message } => if message.chat_id == c {
                Step::Deliver
            } else {
                Step::Skip
            },
            _ => Step::Skip,
        },
        StreamFilter::ChatLifecycle => if is_chat_lifecycle(e) {
            Step::Deliver
        } else {
            Step::Skip
        },
        StreamFilter::UserMessages(_) => match e {
            DomainEvent::NewMessage { .. } => Step::CheckMembership,
            _ => Step::Skip,
        },
    }
}

/// The chat a new message belongs to.
pub open spec fn message_chat(e: DomainEvent) -> i64 {
    match e {
        DomainEvent::NewMessage { message } => message.chat_id,
        _ => 0,
    }
}

/// The first position in `from..to` of `h` that the filter does not skip.
pub open spec fn first_hit(f: StreamFilter, h: Seq<DomainEvent>, from: nat, to: nat) -> Option<nat>
    decreases to - from,
{
    if from >= to {
        None
    } else if step_of(f, h[from as int]) != Step::Skip {
        Some(from)
    } else {
        first_hit(f, h, from + 1, to)
    }
}

/// Where a cursor reads from: its own position, or the head if it lagged.
pub open spec fn resume_point(b: BusView, id: u64) -> nat {
    if b.cursors[id] < b.oldest() {
        b.history.len()
    } else {
        b.cursors[id] as nat
    }
}

/// The state of one stream.
pub struct StreamState {
    pub id: u64,
    pub filter: StreamFilter,
    pub ended: bool,
}

/// What polling a stream gives.
#[derive(Debug, Clone, PartialEq, Eq)]
pub enum StreamPoll {
    /// An event for the client.
    Item(DomainEvent),
    /// A new message whose delivery waits on a lookup of the members of
    /// chat `chat_id`; hand the lookup's outcome to `EventStream::resolve`.
    Check { chat_id: i64, event: DomainEvent },
    /// Nothing more for now; poll again after the next publish.
    Pending,
    /// The stream is over.
    Ended,
}

/// One poll of stream `s` on bus `b`, giving `s2`, `b2` and `r`.
pub open spec fn next_step(
    s: StreamState,
    b: BusView,
    s2: StreamState,
    b2: BusView,
    r: StreamPoll,
) -> bool {
    if s.ended || !b.cursors.contains_key(s.id) {
        r == StreamPoll::Ended && s2 == (StreamState { ended: true, ..s }) && b2 == b
    } else {
        let p = resume_point(b, s.id);
        let h = b.history;
        match first_hit(s.filter, h, p, h.len()) {
            None => r == StreamPoll::Pending && s2 == s && b2 == (BusView {
                cursors: b.cursors.insert(s.id, h.len() as u64),
                ..b
            }),
            Some(k) => match step_of(s.filter, h[k as int]) {
                Step::DeliverAndEnd => r == StreamPoll::Item(h[k as int]) && s2 == (StreamState {
                    ended: true,
                    ..s
                }) && b2 == (BusView { cursors: b.cursors.remove(s.id), ..b }),
                Step::CheckMembership => r == (StreamPoll::Check {
                    chat_id: message_chat(h[k as int]),
                    event: h[k as int],
                }) && s2 == s && b2 == (
                BusView { cursors: b.cursors.insert(s.id, (k + 1) as u64), ..b }),
                _ => r == StreamPoll::Item(h[k as int]) && s2 == s && b2 == (BusView {
                    cursors: b.cursors.insert(s.id, (k + 1) as u64),
                    ..b
                }),
            },
        }
    }
}

/// Opening a stream with `filter` took the bus from `pre` to `post` and gave `r`:
/// a new subscriber at the head, or `BusUnavailable` when ids are used up.
pub open spec fn opened(
    pre: BusView,
    post: BusView,
    filter: StreamFilter,
    r: Result<EventStream, AppError>,
) -> bool {
    match r {
        Ok(s) => pre.next_id < u64::MAX && s@ == (StreamState {
            id: pre.next_id as u64,
            filter,
            ended: false,
        }) && post == (BusView {
            cursors: pre.cursors.insert(pre.next_id as u64, pre.history.len() as u64),
            next_id: pre.next_id + 1,
            ..pre
        }),
        Err(e) => pre.next_id == u64::MAX && e == AppError::BusUnavailable && post == pre,
    }
}

/// The outcome of looking up the members of a new message's chat.
#[derive(Debug, Clone, PartialEq, Eq)]
pub enum MemberLookup {
    /// The chat's current members.
    Members(Vec<UserId>),
    /// The lookup failed; the event is dropped for this subscriber.
    Unavailable,
    /// The subscriber's own identity can no longer be resolved.
    IdentityGone,
}

/// What becomes of a new message for one subscriber.
#[derive(Debug, Clone, Copy, PartialEq, Eq, Structural)]
pub enum Verdict {
    Deliver,
    Drop,
    End,
}

/// A new message reaches `user` only if `user` is a current member of its
/// chat; a failed lookup drops it; a lost identity ends the stream.
pub open spec fn verdict_of(user: UserId, lookup: MemberLookup) -> Verdict {
    match lookup {
        MemberLookup::Members(m) => if m@.contains(user) {
            Verdict::Deliver
        } else {
            Verdict::Drop
        },
        MemberLookup::Unavailable => Verdict::Drop,
        MemberLookup::IdentityGone => Verdict::End,
    }
}

/// Decides delivery of a new message to `user` from the membership lookup.
pub fn membership_verdict(user: UserId, lookup: &MemberLookup) -> (r: Verdict)
    ensures
        r == verdict_of(user, *lookup),
{
    match lookup {
        MemberLookup::Members(m) => if contains_id(m, user) {
            Verdict::Deliver
        } else {
            Verdict::Drop
        },
        MemberLookup::Unavailable => Verdict::Drop,
        MemberLookup::IdentityGone => Verdict::End,
    }
}

/// Resolving a pending new message `e` on stream `s` with `lookup`.
pub open spec fn resolve_step(
    s: StreamState,
    b: BusView,
    e: DomainEvent,
    lookup: MemberLookup,
    s2: StreamState,
    b2: BusView,
    r: Option<DomainEvent>,
) -> bool {
    match s.filter {
        StreamFilter::UserMessages(u) => if s.ended {
            r == None::<DomainEvent> && s2 == s && b2 == b
        } else {
            match verdict_of(u, lookup) {
                Verdict::Deliver => r == Some(e) && s2 == s && b2 == b,
                Verdict::Drop => r == None::<DomainEvent> && s2 == s && b2 == b,
                Verdict::End => r == None::<DomainEvent> && s2 == (StreamState { ended: true, ..s })
                    && b2 == (BusView { cursors: b.cursors.remove(s.id), ..b }),
            }
        },
        _ => r == None::<DomainEvent> && s2 == s && b2 == b,
    }
}

/// A client's stream over the bus.
pub struct EventStream {
    id: u64,
    filter: StreamFilter,
    ended: bool,
}

impl View for EventStream {
    type V = StreamState;

    closed spec fn view(&self) -> StreamState {
        StreamState { id: self.id, filter: self.filter, ended: self.ended }
    }
}

/// The filter's decision on one event.
pub fn filter_step(f: &StreamFilter, e: &DomainEvent) -> (r: Step)
    ensures
        r == step_of(*f, *e),
{
    match f {
        StreamFilter::Pairing(d) => {
            let (same, terminal) = match e {
                DomainEvent::QRScanned { device_id } => (str_eq(device_id.as_str(), d.as_str()), false),
                DomainEvent::QRConfirmed { device_id, .. } => (
                    str_eq(device_id.as_str(), d.as_str()),
                    true,
                ),
                DomainEvent::QRCancelled { device_id } => (str_eq(device_id.as_str(), d.as_str()), true),
                _ => (false, false),
            };
            if !same {
                Step::Skip
            } else if terminal {
                Step::DeliverAndEnd
            } else {
                Step::Deliver
            }
        },
        StreamFilter::ChatMessages(c) => match e {
            DomainEvent::NewMessage { message } => if message.chat_id == *c {
                Step::Deliver
            } else {
                Step::Skip
            },
            _ => Step::Skip,
        },
        StreamFilter::ChatLifecycle => if e.is_chat_lifecycle() {
            Step::Deliver
        } else {
            Step::Skip
        },
        StreamFilter::UserMessages(_) => match e {
            DomainEvent::NewMessage { .. } => Step::CheckMembership,
            _ => Step::Skip,
        },
    }
}

fn copy_filter(f: &StreamFilter) -> (r: StreamFilter)
    ensures
        r == *f,
{
    match f {
        StreamFilter::Pairing(d) => StreamFilter::Pairing(d.clone()),
        StreamFilter::ChatMessages(c) => StreamFilter::ChatMessages(*c),
        StreamFilter::ChatLifecycle => StreamFilter::ChatLifecycle,
        StreamFilter::UserMessages(u) => StreamFilter::UserMessages(*u),
    }
}

impl EventStream {
    /// Opens a stream with `filter`; its cursor stands at the head of the bus.
    pub fn open(bus: &mut EventBus, filter: StreamFilter) -> (r: Result<EventStream, AppError>)
        requires
            old(bus).wf(),
        ensures
            final(bus).wf(),
            final(bus)@.wf(),
            opened(old(bus)@, final(bus)@, filter, r),
    {
        match bus.subscribe() {
            Ok(id) => Ok(EventStream { id, filter, ended: false }),
            Err(_) => Err(AppError::BusUnavailable),
        }
    }

    /// The filter of this stream.
    pub fn filter(&self) -> (r: StreamFilter)
        ensures
            r == self@.filter,
    {
        copy_filter(&self.filter)
    }

    /// Whether this stream is over.
    pub fn is_ended(&self) -> (r: bool)
        ensures
            r == self@.ended,
    {
        self.ended
    }

    /// Ends the stream when its client goes away, releasing its cursor.
    pub fn close(&mut self, bus: &mut EventBus)
        requires
            old(bus).wf(),
        ensures
            final(bus).wf(),
            final(bus)@.wf(),
            final(self)@ == (StreamState { ended: true, ..old(self)@ }),
            final(bus)@ == (BusView { cursors: old(bus)@.cursors.remove(old(self)@.id), ..old(bus)@ }),
    {
        bus.unsubscribe(self.id);
        self.ended = true;
    }

    /// Finishes a `Check` poll: delivers the pending new message, drops it,
    /// or ends the stream, as the membership lookup decides.
    pub fn resolve(&mut self, bus: &mut EventBus, e: DomainEvent, lookup: &MemberLookup) -> (r:
        Option<DomainEvent>)
        requires
            old(bus).wf(),
        ensures
            final(bus).wf(),
            final(bus)@.wf(),
            resolve_step(old(self)@, old(bus)@, e, *lookup, final(self)@, final(bus)@, r),
    {
        proof {
            bus.lemma_view_wf();
        }
        let user = match &self.filter {
            StreamFilter::UserMessages(u) => *u,
            _ => {
                return None;
            },
        };
        if self.ended {
            return None;
        }
        match membership_verdict(user, lookup) {
            Verdict::Deliver => Some(e),
            Verdict::Drop => None,
            Verdict::End => {
                bus.unsubscribe(self.id);
                self.ended = true;
                None
            },
        }
    }

    /// Reads the bus until the filter yields something or nothing is left;
    /// see `next_step`. A terminal pairing event ends the stream and releases
    /// its cursor.
    pub fn next(&mut self, bus: &mut EventBus) -> (r: StreamPoll)
        requires
            old(bus).wf(),
        ensures
            final(bus).wf(),
            final(bus)@.wf(),
            next_step(old(self)@, old(bus)@, final(self)@, final(bus)@, r),
    {
        proof {
            bus.lemma_view_wf();
        }
        if self.ended || !bus.is_subscribed(self.id) {
            self.ended = true;
            return StreamPoll::Ended;
        }
        let ghost b0 = bus@;
        let ghost h = b0.history;
        let ghost len = h.len();
        let ghost start = b0.cursors[self.id] as nat;
        let ghost p = resume_point(b0, self.id);
        let ghost f = self.filter;
        loop
            invariant
                bus.wf(),
                bus@.wf(),
                self@ == old(self)@,
                !self.ended,
                f == self.filter,
                old(bus)@ == b0,
                bus@.history == h,
                h == b0.history,
                bus@.capacity == b0.capacity,
                bus@.next_id == b0.next_id,
                b0.cursors.contains_key(self.id),
                start == b0.cursors[self.id],
                p == resume_point(b0, self.id),
                len == h.len(),
                bus@.cursors.contains_key(self.id),
                bus@.cursors == b0.cursors.insert(self.id, bus@.cursors[self.id]),
                bus@.cursors[self.id] == start || p <= bus@.cursors[self.id],
                bus@.cursors[self.id] <= len,
                p <= bus@.cursors[self.id] ==> first_hit(f, h, p, len) == first_hit(
                    f,
                    h,
                    bus@.cursors[self.id] as nat,
                    len,
                ),
            decreases len - bus@.cursors[self.id],
        {
            let ghost pos = bus@.cursors[self.id];
            let ghost pre = bus@;
            let got = bus.recv(self.id);
            assert(pre.oldest() == b0.oldest());
            assert(p == start || p == len);
            match got {
                Recv::Event(e) => {
                    let step = filter_step(&self.filter, &e);
                    match step {
                        Step::Skip => {
                            assert(bus@.cursors =~= b0.cursors.insert(self.id, bus@.cursors[self.id]));
                        },
                        Step::DeliverAndEnd => {
                            bus.unsubscribe(self.id);
                            self.ended = true;
                            assert(bus@.cursors =~= b0.cursors.remove(self.id));
                            assert(first_hit(f, h, pos as nat, len) == Some(pos as nat));
                            assert(bus@ == (BusView { cursors: b0.cursors.remove(self.id), ..b0 }));
                            return StreamPoll::Item(e);
                        },
                        Step::CheckMembership => {
                            let chat_id = match &e {
                                DomainEvent::NewMessage { message } => message.chat_id,
                                _ => 0,
                            };
                            assert(bus@.cursors =~= b0.cursors.insert(self.id, (pos + 1) as u64));
                            assert(first_hit(f, h, pos as nat, len) == Some(pos as nat));
                            return StreamPoll::Check { chat_id, event: e };
                        },
                        Step::Deliver => {
                            assert(bus@.cursors =~= b0.cursors.insert(self.id, (pos + 1) as u64));
                            assert(first_hit(f, h, pos as nat, len) == Some(pos as nat));
                            return StreamPoll::Item(e);
                        },
                    }
                },
                Recv::Lagged(_) => {
                    assert(bus@.cursors =~= b0.cursors.insert(self.id, bus@.cursors[self.id]));
                },
                Recv::Empty => {
                    assert(bus@.cursors =~= b0.cursors.insert(self.id, len as u64));
                    assert(first_hit(f, h, len, len) == None::<nat>);
                    assert(bus@ == (BusView { cursors: b0.cursors.insert(self.id, len as u64), ..b0 }));
                    return StreamPoll::Pending;
                },
                Recv::Closed => {
                    return StreamPoll::Ended;
                },
            }
        }
    }
}


/// A hit found by `first_hit` lies in the range and is not skipped, and
/// everything before it in the range is skipped.
pub proof fn lemma_first_hit(f: StreamFilter, h: Seq<DomainEvent>, from: nat, to: nat)
    requires
        to <= h.len(),
    ensures
        match first_hit(f, h, from, to) {
            Some(k) => from <= k < to && step_of(f, h[k as int]) != Step::Skip && forall|j: int|
                from <= j < k ==> step_of(f, #[trigger] h[j]) == Step::Skip,
            None => forall|j: int| from <= j < to ==> step_of(f, #[trigger] h[j]) == Step::Skip,
        },
    decreases to - from,
{
    if from < to && step_of(f, h[from as int]) == Step::Skip {
        lemma_first_hit(f, h, from + 1, to);
    }
}

/// A pairing stream ends with its first confirmation or cancellation: once
/// a poll has yielded one, the stream is over, and a later poll yields
/// nothing and changes neither the stream nor the bus, whatever has been
/// published meanwhile.
pub proof fn lemma_pairing_terminal(
    s0: StreamState,
    b0: BusView,
    s1: StreamState,
    b1: BusView,
    r0: StreamPoll,
    b2: BusView,
    s2: StreamState,
    b3: BusView,
    r1: StreamPoll,
)
    requires
        s0.filter is Pairing,
        next_step(s0, b0, s1, b1, r0),
        r0 is Item,
        is_pairing_terminal(r0->Item_0),
        next_step(s1, b2, s2, b3, r1),
    ensures
        s1.ended,
        r1 == StreamPoll::Ended,
        s2 == s1,
        b3 == b2,
{
    if !s0.ended && b0.cursors.contains_key(s0.id) {
        let p = resume_point(b0, s0.id);
        lemma_first_hit(s0.filter, b0.history, p, b0.history.len());
    }
}

/// Every delete on the chats feed that carries the old row becomes
/// `ChatDeleted` with that row, and the lifecycle filter, which depends on no
/// identity, delivers it.
pub proof fn lemma_deleted_chat_reaches_lifecycle(op: String, old: Chat, new: Option<Chat>)
    requires
        op@ == "DELETE"@,
    ensures
        chat_change_event(ChatUpdated { op, old: Some(old), new }) == Some(
            DomainEvent::ChatDeleted { chat: old },
        ),
        step_of(StreamFilter::ChatLifecycle, DomainEvent::ChatDeleted { chat: old })
            == Step::Deliver,
{
    reveal_strlit("INSERT");
    reveal_strlit("UPDATE");
    reveal_strlit("DELETE");
    assert("INSERT"@ != "DELETE"@) by {
        assert("INSERT"@[0] != "DELETE"@[0]);
    }
    assert("UPDATE"@ != "DELETE"@) by {
        assert("UPDATE"@[0] != "DELETE"@[0]);
    }
}

/// The four streams a client can open.
pub struct SubscriptionRoot;

impl SubscriptionRoot {
    /// The viewer's side of pairing: events for `device_uuid`, until it is
    /// confirmed or cancelled. Needs no identity.
    pub fn scan_login(&self, bus: &mut EventBus, device_uuid: String) -> (r: Result<
        EventStream,
        AppError,
    >)
        requires
            old(bus).wf(),
        ensures
            final(bus).wf(),
            opened(old(bus)@, final(bus)@, StreamFilter::Pairing(device_uuid), r),
    {
        EventStream::open(bus, StreamFilter::Pairing(device_uuid))
    }

    /// New messages of every chat `user` is currently a member of.
    pub fn all_messages(&self, bus: &mut EventBus, user: Option<UserId>) -> (r: Result<
        EventStream,
        AppError,
    >)
        requires
            old(bus).wf(),
        ensures
            final(bus).wf(),
            match user {
                None => r == Err::<EventStream, AppError>(AppError::GetGraphqlUserIdError)
                    && final(bus)@ == old(bus)@,
                Some(u) => opened(old(bus)@, final(bus)@, StreamFilter::UserMessages(u), r),
            },
    {
        match user {
            None => Err(AppError::GetGraphqlUserIdError),
            Some(u) => EventStream::open(bus, StreamFilter::UserMessages(u)),
        }
    }

    /// New messages of chat `chat_id`. The caller opens it only for a chat
    /// the user may read; membership is not checked again.
    pub fn message(&self, bus: &mut EventBus, user: Option<UserId>, chat_id: i64) -> (r: Result<
        EventStream,
        AppError,
    >)
        requires
            old(bus).wf(),
        ensures
            final(bus).wf(),
            match user {
                None => r == Err::<EventStream, AppError>(AppError::GetGraphqlUserIdError)
                    && final(bus)@ == old(bus)@,
                Some(_) => opened(old(bus)@, final(bus)@, StreamFilter::ChatMessages(chat_id), r),
            },
    {
        match user {
            None => Err(AppError::GetGraphqlUserIdError),
            Some(_) => EventStream::open(bus, StreamFilter::ChatMessages(chat_id)),
        }
    }

    /// Every chat lifecycle event, for any authenticated user.
    pub fn chat(&self, bus: &mut EventBus, user: Option<UserId>) -> (r: Result<
        EventStream,
        AppError,
    >)
        requires
            old(bus).wf(),
        ensures
            final(bus).wf(),
            match user {
                None => r == Err::<EventStream, AppError>(AppError::GetGraphqlUserIdError)
                    && final(bus)@ == old(bus)@,
                Some(_) => opened(old(bus)@, final(bus)@, StreamFilter::ChatLifecycle, r),
            },
    {
        match user {
            None => Err(AppError::GetGraphqlUserIdError),
            Some(_) => EventStream::open(bus, StreamFilter::ChatLifecycle),
        }
    }
}

} // verus!
