//! The status store: the two monitoring records that the background
//! scheduler writes and the status endpoints read.
//!
//! Each mutation is a small total function with an exact contract, and a
//! relation (`probe_rel`, `restart_rel`, `check_rel`) restates the contract
//! so that laws about whole runs of mutations can be proved over traces.
//! The store itself is an owned value; sharing it between request handlers
//! and the scheduler is the embedding program's concern.

use vstd::prelude::*;
use crate::models::{GatewayConfig, HealthStatus, MonitoringConfig};

verus! {

/// Health record for the external gateway process.
#[derive(Clone, Copy, Debug, PartialEq, Eq, Structural)]
pub struct GatewayStatus {
    pub health_status: HealthStatus,
    pub uptime_seconds: u64,
    pub last_check_time: i64,
    pub restart_count: u32,
    pub config: GatewayConfig,
}

/// Staleness record written by the stuck-task check.
#[derive(Clone, Copy, Debug, PartialEq, Eq, Structural)]
pub struct StuckTaskStatus {
    pub total_notifications_sent: u32,
    pub currently_tracked_tasks: u32,
    pub last_run: i64,
    pub config: MonitoringConfig,
}

/// How one probe outcome rewrites the gateway record: the verdict and the
/// check time are overwritten, the uptime counter grows by one interval
/// while healthy and resets to zero on a crashed verdict, and the restart
/// counter and the policy are untouched.
pub open spec fn probe_rel(pre: GatewayStatus, healthy: bool, now: i64, post: GatewayStatus) -> bool {
    &&& post.health_status == (if healthy {
        HealthStatus::Healthy
    } else {
        HealthStatus::Crashed
    })
    &&& post.uptime_seconds == (if healthy {
        pre.uptime_seconds + pre.config.check_interval_seconds
    } else {
        0
    })
    &&& post.last_check_time == now
    &&& post.restart_count == pre.restart_count
    &&& post.config == pre.config
}

/// How a restart request rewrites the gateway record: the restart counter
/// grows by one, the verdict returns to unknown, everything else is kept.
pub open spec fn restart_rel(pre: GatewayStatus, post: GatewayStatus) -> bool {
    &&& post.restart_count == pre.restart_count + 1
    &&& post.health_status == HealthStatus::Unknown
    &&& post.uptime_seconds == pre.uptime_seconds
    &&& post.last_check_time == pre.last_check_time
    &&& post.config == pre.config
}

/// How a completed stuck-task check rewrites the staleness record: the
/// tracked count and the run time are overwritten, the notification
/// counter and the policy are untouched.
pub open spec fn check_rel(pre: StuckTaskStatus, count: u32, now: i64, post: StuckTaskStatus) -> bool {
    &&& post.currently_tracked_tasks == count
    &&& post.last_run == now
    &&& post.total_notifications_sent == pre.total_notifications_sent
    &&& post.config == pre.config
}

impl GatewayStatus {
    /// The record the process starts with: verdict unknown, counters zero,
    /// the startup policy, and the start instant as the last check time.
    pub open spec fn spec_startup(now: i64) -> GatewayStatus {
        GatewayStatus {
            health_status: HealthStatus::Unknown,
            uptime_seconds: 0,
            last_check_time: now,
            restart_count: 0,
            config: GatewayConfig::spec_startup_default(),
        }
    }

    /// The record the process starts with; see `spec_startup`.
    pub fn startup(now: i64) -> (g: GatewayStatus)
        ensures
            g == GatewayStatus::spec_startup(now),
    {
        GatewayStatus {
            health_status: HealthStatus::Unknown,
            uptime_seconds: 0,
            last_check_time: now,
            restart_count: 0,
            config: GatewayConfig::startup_default(),
        }
    }

    /// Record one probe outcome taken at `now`.
    pub fn apply_probe(&mut self, healthy: bool, now: i64)
        requires
            healthy ==> old(self).uptime_seconds + old(self).config.check_interval_seconds
                <= u64::MAX,
        ensures
            probe_rel(*old(self), healthy, now, *final(self)),
    {
        self.health_status = if healthy {
            HealthStatus::Healthy
        } else {
            HealthStatus::Crashed
        };
        self.last_check_time = now;
        if healthy {
            self.uptime_seconds = self.uptime_seconds + self.config.check_interval_seconds;
        } else {
            self.uptime_seconds = 0;
        }
    }

    /// Record an explicit restart request. The request only marks the
    /// record; performing a process restart belongs to an external
    /// operator.
    pub fn apply_restart(&mut self)
        requires
            old(self).restart_count < u32::MAX,
        ensures
            restart_rel(*old(self), *final(self)),
    {
        self.restart_count = self.restart_count + 1;
        self.health_status = HealthStatus::Unknown;
    }
}

impl StuckTaskStatus {
    /// The record the process starts with: counters zero, the startup
    /// policy, and the start instant as the last run time.
    pub open spec fn spec_startup(now: i64) -> StuckTaskStatus {
        StuckTaskStatus {
            total_notifications_sent: 0,
            currently_tracked_tasks: 0,
            last_run: now,
            config: MonitoringConfig::spec_startup_default(),
        }
    }

    /// The record the process starts with; see `spec_startup`.
    pub fn startup(now: i64) -> (s: StuckTaskStatus)
        ensures
            s == StuckTaskStatus::spec_startup(now),
    {
        StuckTaskStatus {
            total_notifications_sent: 0,
            currently_tracked_tasks: 0,
            last_run: now,
            config: MonitoringConfig::startup_default(),
        }
    }

    /// Record the count found by a completed stuck-task check run at `now`.
    pub fn apply_check_result(&mut self, count: u32, now: i64)
        ensures
            check_rel(*old(self), count, now, *final(self)),
    {
        self.currently_tracked_tasks = count;
        self.last_run = now;
    }
}

/// The process-wide holder of both monitoring records. Reads hand out
/// snapshot copies; writes go through the record mutators, so the borrow
/// discipline of the embedding program decides who may write when.
pub struct StatusStore {
    pub gateway: GatewayStatus,
    pub stuck: StuckTaskStatus,
}

impl StatusStore {
    /// Both records in their process-start state.
    pub fn startup(now: i64) -> (s: StatusStore)
        ensures
            s.gateway == GatewayStatus::spec_startup(now),
            s.stuck == StuckTaskStatus::spec_startup(now),
    {
        StatusStore { gateway: GatewayStatus::startup(now), stuck: StuckTaskStatus::startup(now) }
    }

    /// Snapshot copy of the gateway record; no side effects.
    pub fn read_gateway_status(&self) -> (g: GatewayStatus)
        ensures
            g == self.gateway,
    {
        self.gateway
    }

    /// Snapshot copy of the staleness record; no side effects.
    pub fn read_stuck_task_status(&self) -> (s: StuckTaskStatus)
        ensures
            s == self.stuck,
    {
        self.stuck
    }
}

/// The uptime counter after a run of probe outcomes, one interval of
/// `step` seconds credited per healthy probe, counted from an uptime of
/// zero: zero after a crashed probe, one step more per healthy probe.
pub open spec fn uptime_after(probes: Seq<bool>, step: nat) -> nat
    decreases probes.len(),
{
    if probes.len() == 0 {
        0
    } else if probes.last() {
        uptime_after(probes.drop_last(), step) + step
    } else {
        0
    }
}

/// A run of the probe-recording mutation: `states` holds the record before
/// and after each of the `probes`, every consecutive pair related by
/// `probe_rel` at the matching probe time.
pub open spec fn probe_trace(
    probes: Seq<bool>,
    times: Seq<i64>,
    states: Seq<GatewayStatus>,
) -> bool {
    &&& states.len() == probes.len() + 1
    &&& times.len() == probes.len()
    &&& forall|i: int|
        0 <= i < probes.len() ==> probe_rel(
            #[trigger] states[i],
            probes[i],
            times[i],
            states[i + 1],
        )
}

/// Along any run of probes that starts with an uptime of zero, the uptime
/// counter equals the fold `uptime_after` over the probes seen so far: it
/// resets to zero exactly on every crashed verdict and grows by exactly
/// one interval per healthy verdict, so it is non-decreasing while the
/// verdicts stay healthy.
pub proof fn lemma_uptime_follows_probes(
    probes: Seq<bool>,
    times: Seq<i64>,
    states: Seq<GatewayStatus>,
    i: int,
)
    requires
        probe_trace(probes, times, states),
        states[0].uptime_seconds == 0,
        0 <= i <= probes.len(),
    ensures
        states[i].config == states[0].config,
        states[i].uptime_seconds == uptime_after(
            probes.take(i),
            states[0].config.check_interval_seconds as nat,
        ),
    decreases i,
{
    if i == 0 {
        assert(probes.take(0) =~= Seq::<bool>::empty());
    } else {
        lemma_uptime_follows_probes(probes, times, states, i - 1);
        assert(probe_rel(states[i - 1], probes[i - 1], times[i - 1], states[i]));
        assert(probes.take(i).drop_last() =~= probes.take(i - 1));
        assert(probes.take(i).last() == probes[i - 1]);
    }
}

/// The uptime counter is zero immediately after every crashed verdict.
pub proof fn lemma_uptime_resets_on_crash(
    probes: Seq<bool>,
    times: Seq<i64>,
    states: Seq<GatewayStatus>,
    i: int,
)
    requires
        probe_trace(probes, times, states),
        states[0].uptime_seconds == 0,
        0 <= i < probes.len(),
        !probes[i],
    ensures
        states[i + 1].uptime_seconds == 0,
{
    assert(probe_rel(states[i], probes[i], times[i], states[i + 1]));
}

/// The uptime counter never shrinks across a healthy verdict.
pub proof fn lemma_uptime_nondecreasing_while_healthy(
    probes: Seq<bool>,
    times: Seq<i64>,
    states: Seq<GatewayStatus>,
    i: int,
)
    requires
        probe_trace(probes, times, states),
        states[0].uptime_seconds == 0,
        0 <= i < probes.len(),
        probes[i],
    ensures
        states[i + 1].uptime_seconds == states[i].uptime_seconds
            + states[i].config.check_interval_seconds,
        states[i + 1].uptime_seconds >= states[i].uptime_seconds,
{
    assert(probe_rel(states[i], probes[i], times[i], states[i + 1]));
}

/// Two consecutive restart requests raise the restart counter by exactly
/// two, leave the verdict unknown, and change nothing else: a second
/// request has the same effect shape as the first.
pub proof fn lemma_restart_effect_shape(g0: GatewayStatus, g1: GatewayStatus, g2: GatewayStatus)
    requires
        restart_rel(g0, g1),
        restart_rel(g1, g2),
    ensures
        g2.restart_count == g0.restart_count + 2,
        g2.health_status == HealthStatus::Unknown,
        g2.uptime_seconds == g0.uptime_seconds,
        g2.last_check_time == g0.last_check_time,
        g2.config == g0.config,
{
}

} // verus!
