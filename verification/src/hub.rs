//! The broadcast hub: a publish/subscribe fan-out point with a bounded
//! queue per subscriber and an explicit drop-oldest policy.
//!
//! `publish` is a total function: it never fails to the publisher, whatever
//! the subscriber population, and it never waits on a slow consumer — when
//! a subscriber's queue is full the oldest pending event for that
//! subscriber is dropped instead. Per-subscriber delivery preserves publish
//! order; events published before a subscription are never replayed to it.
//! The hub is an owned value; fanning its queues out to live network
//! connections is the embedding program's concern.

use vstd::prelude::*;
use crate::models::TaskStatus;

verus! {

/// A state-change notification pushed to live subscribers. Each variant
/// carries the identifiers a consumer needs to refresh its view.
#[derive(Debug, PartialEq, Eq)]
pub enum Event {
    TaskCreated { task_id: String },
    StatusChanged { task_id: String, status: TaskStatus },
    CommentAdded { task_id: String },
    AnnouncementCreated,
    TaskActivityAdded { task_id: String },
    DeliverableAdded { task_id: String },
    TaskRouted { task_id: String },
}

impl Clone for Event {
    fn clone(&self) -> (r: Event)
        ensures
            r == *self,
    {
        match self {
            Event::TaskCreated { task_id } => Event::TaskCreated { task_id: task_id.clone() },
            Event::StatusChanged { task_id, status } => Event::StatusChanged {
                task_id: task_id.clone(),
                status: *status,
            },
            Event::CommentAdded { task_id } => Event::CommentAdded { task_id: task_id.clone() },
            Event::AnnouncementCreated => Event::AnnouncementCreated,
            Event::TaskActivityAdded { task_id } => Event::TaskActivityAdded {
                task_id: task_id.clone(),
            },
            Event::DeliverableAdded { task_id } => Event::DeliverableAdded {
                task_id: task_id.clone(),
            },
            Event::TaskRouted { task_id } => Event::TaskRouted { task_id: task_id.clone() },
        }
    }
}

/// The events pending in one subscriber slot; a vacated slot holds none.
pub open spec fn queue_of(slot: Option<Vec<Event>>) -> Seq<Event> {
    match slot {
        Some(q) => q@,
        None => Seq::empty(),
    }
}

/// What one publish leaves pending for one connected subscriber: the event
/// is appended, and when the queue is already at the bound the oldest
/// pending event is dropped to make room.
pub open spec fn delivered(q: Seq<Event>, e: Event, cap: int) -> Seq<Event> {
    if q.len() < cap {
        q.push(e)
    } else {
        q.drop_first().push(e)
    }
}

/// The fan-out point. Each subscriber owns one slot; a disconnected
/// subscriber's slot is vacated and its identifier is never reused.
pub struct BroadcastHub {
    pub capacity: usize,
    pub subscribers: Vec<Option<Vec<Event>>>,
}

impl BroadcastHub {
    /// The per-subscriber queue bound.
    pub open spec fn spec_capacity(self) -> int {
        self.capacity as int
    }

    /// How many subscriber identifiers have ever been handed out.
    pub open spec fn subscriber_slots(self) -> int {
        self.subscribers@.len() as int
    }

    /// Whether subscriber `id` is connected.
    pub open spec fn live(self, id: int) -> bool {
        0 <= id < self.subscribers@.len() && self.subscribers@[id] is Some
    }

    /// The events delivered to subscriber `id` and not yet received by it.
    pub open spec fn pending(self, id: int) -> Seq<Event> {
        queue_of(self.subscribers@[id])
    }

    /// A usable hub: a positive queue bound, every queue within it.
    pub open spec fn wf(self) -> bool {
        &&& 1 <= self.capacity
        &&& forall|j: int|
            0 <= j < self.subscribers@.len() ==> queue_of(#[trigger] self.subscribers@[j]).len()
                <= self.capacity
    }

    /// A fresh hub with the given per-subscriber queue bound and no
    /// subscribers.
    pub fn new(capacity: usize) -> (h: BroadcastHub)
        requires
            1 <= capacity,
        ensures
            h.wf(),
            h.spec_capacity() == capacity,
            h.subscriber_slots() == 0,
    {
        BroadcastHub { capacity, subscribers: Vec::new() }
    }

    /// Register a new subscriber. The handle starts with nothing pending:
    /// events published before this call are never replayed to it.
    pub fn subscribe(&mut self) -> (id: usize)
        ensures
            subscribe_rel(*old(self), *final(self), id as int),
            old(self).wf() ==> final(self).wf(),
    {
        let id = self.subscribers.len();
        self.subscribers.push(Some(Vec::new()));
        id
    }

    /// Vacate a subscriber's slot, as on a dropped connection. No error is
    /// raised anywhere: pending events for the slot are discarded.
    pub fn disconnect(&mut self, id: usize)
        requires
            id < old(self).subscriber_slots(),
        ensures
            !final(self).live(id as int),
            final(self).spec_capacity() == old(self).spec_capacity(),
            final(self).subscriber_slots() == old(self).subscriber_slots(),
            forall|j: int|
                0 <= j < old(self).subscriber_slots() && j != id ==> final(self).live(j)
                    == old(self).live(j) && #[trigger] final(self).pending(j) == old(
                    self,
                ).pending(j),
            old(self).wf() ==> final(self).wf(),
    {
        self.subscribers[id] = None;
    }

    /// Push one event to every connected subscriber, best effort: the
    /// publisher never waits and never sees an error, whoever is — or is
    /// not — subscribed. A full queue loses its oldest pending event.
    pub fn publish(&mut self, e: &Event)
        requires
            old(self).wf(),
        ensures
            final(self).wf(),
            publish_rel(*old(self), *e, *final(self)),
    {
        let n = self.subscribers.len();
        let mut i: usize = 0;
        while i < n
            invariant
                i <= n,
                n == self.subscribers@.len(),
                self.capacity == old(self).capacity,
                1 <= self.capacity,
                forall|j: int| i <= j < n ==> self.subscribers@[j] == old(self).subscribers@[j],
                forall|j: int|
                    0 <= j < i ==> ((#[trigger] self.subscribers@[j]) is Some <==> old(
                        self,
                    ).subscribers@[j] is Some),
                forall|j: int|
                    0 <= j < i && old(self).subscribers@[j] is Some ==> queue_of(
                        #[trigger] self.subscribers@[j],
                    ) == delivered(
                        queue_of(old(self).subscribers@[j]),
                        *e,
                        old(self).capacity as int,
                    ),
                forall|j: int|
                    0 <= j < n ==> queue_of(#[trigger] self.subscribers@[j]).len()
                        <= self.capacity,
            decreases n - i,
        {
            let cap = self.capacity;
            match &mut self.subscribers[i] {
                Some(q) => {
                    if q.len() == cap {
                        let dropped = q.remove(0);
                        proof {
                            assert(q@ =~= queue_of(old(self).subscribers@[i as int]).drop_first());
                        }
                    }
                    q.push(e.clone());
                }
                None => {},
            }
            i += 1;
        }
    }

    /// Hand subscriber `id` its oldest pending event, if any. Successive
    /// calls see the events of one subscriber in publish order.
    pub fn recv(&mut self, id: usize) -> (r: Option<Event>)
        requires
            old(self).live(id as int),
        ensures
            final(self).live(id as int),
            final(self).spec_capacity() == old(self).spec_capacity(),
            final(self).subscriber_slots() == old(self).subscriber_slots(),
            forall|j: int|
                0 <= j < old(self).subscriber_slots() && j != id ==> final(self).live(j) == old(
                    self,
                ).live(j) && #[trigger] final(self).pending(j) == old(self).pending(j),
            old(self).pending(id as int).len() == 0 ==> r is None && final(self).pending(id as int)
                == old(self).pending(id as int),
            old(self).pending(id as int).len() > 0 ==> r == Some(old(self).pending(id as int)[0])
                && final(self).pending(id as int) == old(self).pending(id as int).drop_first(),
            old(self).wf() ==> final(self).wf(),
    {
        match &mut self.subscribers[id] {
            Some(q) => {
                if q.len() == 0 {
                    None
                } else {
                    let e = q.remove(0);
                    proof {
                        assert(q@ =~= queue_of(old(self).subscribers@[id as int]).drop_first());
                    }
                    Some(e)
                }
            },
            None => None,
        }
    }
}

/// How one publish rewrites the hub: the bound and the slots are kept,
/// liveness of every subscriber is kept, and every connected subscriber's
/// queue becomes `delivered` of its old queue.
pub open spec fn publish_rel(pre: BroadcastHub, e: Event, post: BroadcastHub) -> bool {
    &&& post.spec_capacity() == pre.spec_capacity()
    &&& post.subscriber_slots() == pre.subscriber_slots()
    &&& forall|j: int| 0 <= j < pre.subscriber_slots() ==> #[trigger] post.live(j) == pre.live(j)
    &&& forall|j: int|
        0 <= j < pre.subscriber_slots() && pre.live(j) ==> #[trigger] post.pending(j) == delivered(
            pre.pending(j),
            e,
            pre.spec_capacity(),
        )
}

/// How one subscription rewrites the hub: a fresh identifier, an empty
/// queue for it, everything already present untouched.
pub open spec fn subscribe_rel(pre: BroadcastHub, post: BroadcastHub, id: int) -> bool {
    &&& id == pre.subscriber_slots()
    &&& post.spec_capacity() == pre.spec_capacity()
    &&& post.subscriber_slots() == pre.subscriber_slots() + 1
    &&& post.live(id)
    &&& post.pending(id) == Seq::<Event>::empty()
    &&& forall|j: int|
        0 <= j < pre.subscriber_slots() ==> #[trigger] post.live(j) == pre.live(j)
            && post.pending(j) == pre.pending(j)
}

/// A run of publishes, in order: `post` is reached from `pre` by
/// publishing each event of `es` in turn.
pub open spec fn publish_run_rel(pre: BroadcastHub, es: Seq<Event>, post: BroadcastHub) -> bool
    decreases es.len(),
{
    if es.len() == 0 {
        post == pre
    } else {
        exists|mid: BroadcastHub|
            publish_run_rel(pre, es.drop_last(), mid) && #[trigger] publish_rel(
                mid,
                es.last(),
                post,
            )
    }
}

/// A subscriber that subscribes first and stays connected through a run of
/// publishes no longer than the queue bound holds exactly those events,
/// pending in publish order, at the end of the run.
pub proof fn lemma_subscriber_receives_run_in_order(
    pre: BroadcastHub,
    es: Seq<Event>,
    post: BroadcastHub,
    id: int,
)
    requires
        pre.live(id),
        pre.pending(id) == Seq::<Event>::empty(),
        es.len() <= pre.spec_capacity(),
        publish_run_rel(pre, es, post),
    ensures
        post.live(id),
        post.pending(id) == es,
        post.spec_capacity() == pre.spec_capacity(),
        post.subscriber_slots() == pre.subscriber_slots(),
    decreases es.len(),
{
    if es.len() == 0 {
        assert(post == pre);
    } else {
        let mid = choose|mid: BroadcastHub|
            publish_run_rel(pre, es.drop_last(), mid) && #[trigger] publish_rel(
                mid,
                es.last(),
                post,
            );
        lemma_subscriber_receives_run_in_order(pre, es.drop_last(), mid, id);
        assert(post.pending(id) == delivered(mid.pending(id), es.last(), mid.spec_capacity()));
        assert(mid.pending(id).len() < mid.spec_capacity());
        assert(post.pending(id) =~= es);
    }
}

/// A subscriber that connects only after a run of publishes starts with
/// nothing pending: it receives none of the earlier events.
pub proof fn lemma_late_subscriber_receives_nothing(
    pre: BroadcastHub,
    es: Seq<Event>,
    mid: BroadcastHub,
    post: BroadcastHub,
    id: int,
)
    requires
        publish_run_rel(pre, es, mid),
        subscribe_rel(mid, post, id),
    ensures
        post.pending(id) == Seq::<Event>::empty(),
{
}

/// Publishing to a hub with no connected subscribers is still a total,
/// errorless operation, and it leaves no trace: nobody is connected
/// afterwards either, so no later subscriber can ever see the event.
pub proof fn lemma_publish_reaches_no_one(pre: BroadcastHub, e: Event, post: BroadcastHub)
    requires
        forall|j: int| !pre.live(j),
        publish_rel(pre, e, post),
    ensures
        forall|j: int| !post.live(j),
{
    assert forall|j: int| !post.live(j) by {
        if 0 <= j < pre.subscriber_slots() {
            assert(post.live(j) == pre.live(j));
        } else {
            assert(!(0 <= j < post.subscribers@.len()));
        }
    }
}

} // verus!
