//! The task state machine: applying a status change to a task record and
//! announcing it through the broadcast hub.
//!
//! The exposed operation accepts any target status — reassignment and
//! correction flows may move a task backwards — and the stricter rule an
//! embedder may choose to enforce is stated beside it. Every accepted
//! change refreshes the record's update time and yields the
//! `status_changed` event for the hub.

use vstd::prelude::*;
use crate::hub::{BroadcastHub, Event, publish_rel};
use crate::models::{Task, TaskStatus};

verus! {

/// How a status change rewrites a task record: the status and the update
/// time are overwritten, every other field is kept.
pub open spec fn status_update_rel(pre: Task, new_status: TaskStatus, now: int, post: Task) -> bool {
    &&& post.status == new_status
    &&& post.updated_at == now
    &&& post.id == pre.id
    &&& post.title == pre.title
    &&& post.description == pre.description
    &&& post.priority == pre.priority
    &&& post.tags == pre.tags
    &&& post.assignee_id == pre.assignee_id
    &&& post.reviewer == pre.reviewer
    &&& post.reviewer_id == pre.reviewer_id
    &&& post.created_at == pre.created_at
    &&& post.due_at == pre.due_at
}

/// The stricter transition rule an embedder may enforce: a task returns
/// to `Inbox` only from `Inbox` itself, and `Done` is terminal.
pub open spec fn spec_hardened_allows(from: TaskStatus, to: TaskStatus) -> bool {
    &&& (to == TaskStatus::Inbox ==> from == TaskStatus::Inbox)
    &&& (from == TaskStatus::Done ==> to == TaskStatus::Done)
}

/// Decide the stricter transition rule.
pub fn hardened_allows(from: TaskStatus, to: TaskStatus) -> (r: bool)
    ensures
        r == spec_hardened_allows(from, to),
{
    let into_inbox_ok = match to {
        TaskStatus::Inbox => match from {
            TaskStatus::Inbox => true,
            _ => false,
        },
        _ => true,
    };
    let out_of_done_ok = match from {
        TaskStatus::Done => match to {
            TaskStatus::Done => true,
            _ => false,
        },
        _ => true,
    };
    into_inbox_ok && out_of_done_ok
}

impl Task {
    /// Apply a status change at the instant `now` and yield the event
    /// that announces it.
    pub fn set_status(&mut self, new_status: TaskStatus, now: i64) -> (e: Event)
        ensures
            status_update_rel(*old(self), new_status, now as int, *final(self)),
            e == (Event::StatusChanged { task_id: old(self).id, status: new_status }),
    {
        self.status = new_status;
        self.updated_at = now;
        Event::StatusChanged { task_id: self.id.clone(), status: new_status }
    }
}

/// Apply a status change and announce it: the record is rewritten as by
/// `set_status`, and the matching `status_changed` event is published to
/// every connected subscriber.
pub fn apply_status_change(
    task: &mut Task,
    new_status: TaskStatus,
    now: i64,
    hub: &mut BroadcastHub,
)
    requires
        old(hub).wf(),
    ensures
        status_update_rel(*old(task), new_status, now as int, *final(task)),
        final(hub).wf(),
        publish_rel(
            *old(hub),
            Event::StatusChanged { task_id: old(task).id, status: new_status },
            *final(hub),
        ),
{
    let e = task.set_status(new_status, now);
    hub.publish(&e);
}

} // verus!
