//! The background scheduler loop, as a state machine plus the pure tick
//! application.
//!
//! One tick runs the gateway health check, then the stuck-task check, then
//! sleeps for the configured interval; the two checks of a tick never
//! overlap because the loop holds a single phase value and a new check
//! begins only from the phase that the previous step left. The blocking
//! parts of a tick — the network probe, the staleness query, the sleep —
//! happen outside the library; their outcomes are handed to `run_tick`,
//! which applies them to the status store with the retained-previous-value
//! policy for a failed check.

use vstd::prelude::*;
use crate::status::{StatusStore, check_rel, probe_rel};

verus! {

/// Where the scheduler loop stands.
#[derive(Clone, Copy, Debug, PartialEq, Eq, Structural)]
pub enum TickPhase {
    /// Before the first tick; the loop starts immediately, with no delay.
    Idle,
    /// The gateway health probe of the current tick is in flight.
    RunningHealthCheck,
    /// The stuck-task check of the current tick is in flight.
    RunningStuckCheck,
    /// Between ticks, waiting out the configured interval.
    Sleeping,
}

/// The loop's only moves: begin a tick from rest, finish the health check
/// into the stuck check, finish the stuck check into sleep, wake into the
/// next tick.
pub open spec fn phase_step(pre: TickPhase, post: TickPhase) -> bool {
    match pre {
        TickPhase::Idle => post == TickPhase::RunningHealthCheck,
        TickPhase::RunningHealthCheck => post == TickPhase::RunningStuckCheck,
        TickPhase::RunningStuckCheck => post == TickPhase::Sleeping,
        TickPhase::Sleeping => post == TickPhase::RunningHealthCheck,
    }
}

/// Enter the health check of a new tick; only rest phases allow it.
pub fn begin_health_check(phase: &mut TickPhase)
    requires
        *old(phase) == TickPhase::Idle || *old(phase) == TickPhase::Sleeping,
    ensures
        *final(phase) == TickPhase::RunningHealthCheck,
        phase_step(*old(phase), *final(phase)),
{
    *phase = TickPhase::RunningHealthCheck;
}

/// The health check came back; enter the stuck-task check of the same
/// tick. A slow probe therefore delays the stuck check: nothing else can
/// start it.
pub fn begin_stuck_check(phase: &mut TickPhase)
    requires
        *old(phase) == TickPhase::RunningHealthCheck,
    ensures
        *final(phase) == TickPhase::RunningStuckCheck,
        phase_step(*old(phase), *final(phase)),
{
    *phase = TickPhase::RunningStuckCheck;
}

/// The stuck-task check came back; the tick is over, sleep out the
/// interval.
pub fn begin_sleep(phase: &mut TickPhase)
    requires
        *old(phase) == TickPhase::RunningStuckCheck,
    ensures
        *final(phase) == TickPhase::Sleeping,
        phase_step(*old(phase), *final(phase)),
{
    *phase = TickPhase::Sleeping;
}

/// A possible history of the loop: started at rest, every move one of the
/// loop's moves.
pub open spec fn valid_phase_trace(t: Seq<TickPhase>) -> bool {
    &&& t.len() >= 1
    &&& t[0] == TickPhase::Idle
    &&& forall|i: int| 0 <= i < t.len() - 1 ==> phase_step(#[trigger] t[i], t[i + 1])
}

/// Ticks never overlap. In any history of the loop, a stuck-task check is
/// entered only from the health check of the same tick, and a health
/// check is entered only from rest — so the two checks are never in
/// flight together, and a new tick cannot begin before the previous one
/// has finished both checks.
pub proof fn lemma_checks_never_overlap(t: Seq<TickPhase>, i: int)
    requires
        valid_phase_trace(t),
        0 < i < t.len(),
    ensures
        t[i] == TickPhase::RunningStuckCheck ==> t[i - 1] == TickPhase::RunningHealthCheck,
        t[i] == TickPhase::RunningHealthCheck ==> t[i - 1] == TickPhase::Idle || t[i - 1]
            == TickPhase::Sleeping,
{
    assert(phase_step(t[i - 1], t[i]));
}

/// Apply one tick's outcomes to the status store: the probe verdict is
/// recorded as it came — a crashed verdict is a legitimate outcome, not
/// an error — and the stuck-task count is recorded when the check
/// succeeded, while a failed check leaves the staleness record exactly as
/// it was, so one bad cycle never destroys the last good reading.
pub fn run_tick(
    store: &mut StatusStore,
    probe_healthy: bool,
    stuck_result: Option<u32>,
    now: i64,
)
    requires
        probe_healthy ==> old(store).gateway.uptime_seconds
            + old(store).gateway.config.check_interval_seconds <= u64::MAX,
    ensures
        probe_rel(old(store).gateway, probe_healthy, now, final(store).gateway),
        stuck_result matches Some(count) ==> check_rel(
            old(store).stuck,
            count,
            now,
            final(store).stuck,
        ),
        stuck_result is None ==> final(store).stuck == old(store).stuck,
{
    store.gateway.apply_probe(probe_healthy, now);
    match stuck_result {
        Some(count) => {
            store.stuck.apply_check_result(count, now);
        },
        None => {},
    }
}

} // verus!
