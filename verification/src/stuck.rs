//! The stuck-task detector: the staleness rule and the aggregate count
//! over a set of task records.
//!
//! A task is stuck when it still sits in `Inbox` or `Assigned` and its
//! last update lies further in the past than the staleness limit of its
//! priority tier — the urgent tier uses the shorter limit. The detector is
//! a pure read; fetching the records and storing the count are the
//! embedding program's concern.

use vstd::prelude::*;
use crate::models::{MonitoringConfig, Priority, Task, TaskStatus};

verus! {

/// The staleness rule for one record: status still in the intake states
/// and more than the tier's limit of minutes behind `now`.
pub open spec fn spec_is_stuck(
    status: TaskStatus,
    priority: Priority,
    updated_at: int,
    now: int,
    cfg: MonitoringConfig,
) -> bool {
    &&& (status == TaskStatus::Inbox || status == TaskStatus::Assigned)
    &&& now - updated_at > cfg.spec_limit_minutes(priority) * 60
}

/// The staleness rule applied to a task record.
pub open spec fn spec_task_is_stuck(t: Task, now: int, cfg: MonitoringConfig) -> bool {
    spec_is_stuck(t.status, t.priority, t.updated_at as int, now, cfg)
}

/// How many records of `tasks` are stuck at `now`.
pub open spec fn spec_stuck_count(tasks: Seq<Task>, now: int, cfg: MonitoringConfig) -> nat
    decreases tasks.len(),
{
    if tasks.len() == 0 {
        0
    } else {
        spec_stuck_count(tasks.drop_last(), now, cfg) + if spec_task_is_stuck(
            tasks.last(),
            now,
            cfg,
        ) {
            1nat
        } else {
            0nat
        }
    }
}

/// The count never exceeds the number of records.
pub proof fn lemma_stuck_count_bounded(tasks: Seq<Task>, now: int, cfg: MonitoringConfig)
    ensures
        spec_stuck_count(tasks, now, cfg) <= tasks.len(),
    decreases tasks.len(),
{
    if tasks.len() > 0 {
        lemma_stuck_count_bounded(tasks.drop_last(), now, cfg);
    }
}

/// Decide the staleness rule for one task record.
pub fn is_stuck(t: &Task, now: i64, cfg: &MonitoringConfig) -> (r: bool)
    requires
        cfg.well_formed(),
        0 <= now,
        0 <= t.updated_at,
    ensures
        r == spec_task_is_stuck(*t, now as int, *cfg),
{
    let in_intake = match t.status {
        TaskStatus::Inbox => true,
        TaskStatus::Assigned => true,
        _ => false,
    };
    if !in_intake {
        return false;
    }
    if now <= t.updated_at {
        return false;
    }
    let age: i64 = now - t.updated_at;
    let limit_seconds: u64 = cfg.limit_minutes(t.priority) * 60;
    (age as u64) > limit_seconds
}

/// Count the stuck records in one pass: the aggregate the stuck-task
/// check stores and the manual trigger reports.
pub fn count_stuck(tasks: &Vec<Task>, now: i64, cfg: &MonitoringConfig) -> (n: usize)
    requires
        cfg.well_formed(),
        0 <= now,
        forall|j: int| 0 <= j < tasks@.len() ==> 0 <= (#[trigger] tasks@[j]).updated_at,
    ensures
        n == spec_stuck_count(tasks@, now as int, *cfg),
{
    let mut n: usize = 0;
    let mut i: usize = 0;
    let len = tasks.len();
    proof {
        lemma_stuck_count_bounded(tasks@, now as int, *cfg);
    }
    while i < len
        invariant
            i <= len,
            len == tasks@.len(),
            cfg.well_formed(),
            0 <= now,
            forall|j: int| 0 <= j < tasks@.len() ==> 0 <= (#[trigger] tasks@[j]).updated_at,
            n == spec_stuck_count(tasks@.take(i as int), now as int, *cfg),
            n <= i,
        decreases len - i,
    {
        if is_stuck(&tasks[i], now, cfg) {
            n = n + 1;
        }
        proof {
            assert(tasks@.take(i + 1).drop_last() =~= tasks@.take(i as int));
            assert(tasks@.take(i + 1).last() == tasks@[i as int]);
        }
        i = i + 1;
    }
    proof {
        assert(tasks@.take(len as int) =~= tasks@);
    }
    n
}

} // verus!
