use clawcontrol::models::{GatewayConfig, HealthStatus, MonitoringConfig, Priority, Task, TaskStatus};
use clawcontrol::scheduler::{begin_health_check, begin_sleep, begin_stuck_check, run_tick, TickPhase};
use clawcontrol::status::{GatewayStatus, StatusStore, StuckTaskStatus};
use clawcontrol::stuck::{count_stuck, is_stuck};

fn task(id: &str, status: TaskStatus, priority: Priority, updated_at: i64) -> Task {
    Task {
        id: id.to_string(),
        title: format!("task {}", id),
        description: None,
        status,
        priority,
        tags: None,
        assignee_id: None,
        reviewer: None,
        reviewer_id: None,
        created_at: 0,
        updated_at,
        due_at: None,
    }
}

#[test]
fn startup_records_hold_the_documented_defaults() {
    let store = StatusStore::startup(1000);
    assert_eq!(store.gateway.health_status, HealthStatus::Unknown);
    assert_eq!(store.gateway.uptime_seconds, 0);
    assert_eq!(store.gateway.last_check_time, 1000);
    assert_eq!(store.gateway.restart_count, 0);
    assert_eq!(
        store.gateway.config,
        GatewayConfig {
            check_interval_seconds: 60,
            health_check_timeout: 5,
            max_restart_attempts: 3,
            notification_cooldown_minutes: 30,
        }
    );
    assert_eq!(store.stuck.total_notifications_sent, 0);
    assert_eq!(store.stuck.currently_tracked_tasks, 0);
    assert_eq!(store.stuck.last_run, 1000);
    assert_eq!(
        store.stuck.config,
        MonitoringConfig { normal_priority_limit_minutes: 120, urgent_priority_limit_minutes: 30 }
    );
}

#[test]
fn uptime_resets_exactly_on_crash_and_grows_while_healthy() {
    let mut g = GatewayStatus::startup(0);
    let probes = [true, true, false, true, true];
    let expected_uptime = [60u64, 120, 0, 60, 120];
    let expected_health = [
        HealthStatus::Healthy,
        HealthStatus::Healthy,
        HealthStatus::Crashed,
        HealthStatus::Healthy,
        HealthStatus::Healthy,
    ];
    for (i, &healthy) in probes.iter().enumerate() {
        let now = (i as i64 + 1) * 60;
        g.apply_probe(healthy, now);
        assert_eq!(g.uptime_seconds, expected_uptime[i]);
        assert_eq!(g.health_status, expected_health[i]);
        assert_eq!(g.last_check_time, now);
    }
    assert_eq!(g.restart_count, 0);
}

#[test]
fn restart_twice_adds_two_and_leaves_health_unknown() {
    let mut g = GatewayStatus::startup(0);
    g.apply_probe(true, 60);
    let initial = g.restart_count;
    g.apply_restart();
    g.apply_restart();
    assert_eq!(g.restart_count, initial + 2);
    assert_eq!(g.health_status, HealthStatus::Unknown);
    assert_eq!(g.uptime_seconds, 60);
    assert_eq!(g.last_check_time, 60);
}

#[test]
fn health_labels_match_the_reported_strings() {
    assert_eq!(HealthStatus::Unknown.label(), "unknown");
    assert_eq!(HealthStatus::Healthy.label(), "healthy");
    assert_eq!(HealthStatus::Crashed.label(), "crashed");
}

#[test]
fn tick_records_probe_and_stuck_count() {
    let mut store = StatusStore::startup(0);
    run_tick(&mut store, true, Some(3), 60);
    assert_eq!(store.gateway.health_status, HealthStatus::Healthy);
    assert_eq!(store.gateway.uptime_seconds, 60);
    assert_eq!(store.gateway.last_check_time, 60);
    assert_eq!(store.stuck.currently_tracked_tasks, 3);
    assert_eq!(store.stuck.last_run, 60);
}

#[test]
fn failed_stuck_check_retains_previous_record() {
    let mut store = StatusStore::startup(0);
    run_tick(&mut store, true, Some(5), 60);
    let before = store.stuck;
    run_tick(&mut store, false, None, 120);
    assert_eq!(store.stuck, before);
    assert_eq!(store.gateway.health_status, HealthStatus::Crashed);
    assert_eq!(store.gateway.uptime_seconds, 0);
}

#[test]
fn snapshot_reads_copy_the_records() {
    let mut store = StatusStore::startup(7);
    run_tick(&mut store, true, Some(2), 67);
    let g = store.read_gateway_status();
    let s = store.read_stuck_task_status();
    assert_eq!(g, store.gateway);
    assert_eq!(s, store.stuck);
}

#[test]
fn loop_phases_follow_the_tick_order() {
    let mut phase = TickPhase::Idle;
    begin_health_check(&mut phase);
    assert_eq!(phase, TickPhase::RunningHealthCheck);
    begin_stuck_check(&mut phase);
    assert_eq!(phase, TickPhase::RunningStuckCheck);
    begin_sleep(&mut phase);
    assert_eq!(phase, TickPhase::Sleeping);
    begin_health_check(&mut phase);
    assert_eq!(phase, TickPhase::RunningHealthCheck);
}

#[test]
fn stuck_count_over_the_fixed_task_set_is_one() {
    let now: i64 = 100_000;
    let cfg = MonitoringConfig::startup_default();
    let tasks = vec![
        task("a", TaskStatus::Inbox, Priority::Normal, now - 3 * 3600),
        task("b", TaskStatus::Assigned, Priority::Normal, now - 3600),
        task("c", TaskStatus::Done, Priority::Normal, now - 5 * 3600),
    ];
    assert_eq!(count_stuck(&tasks, now, &cfg), 1);
    assert!(is_stuck(&tasks[0], now, &cfg));
    assert!(!is_stuck(&tasks[1], now, &cfg));
    assert!(!is_stuck(&tasks[2], now, &cfg));
}

#[test]
fn stuck_rule_is_strict_and_priority_aware() {
    let now: i64 = 1_000_000;
    let cfg = MonitoringConfig::startup_default();
    let at_normal_limit = task("d", TaskStatus::Inbox, Priority::Normal, now - 120 * 60);
    assert!(!is_stuck(&at_normal_limit, now, &cfg));
    let past_normal_limit = task("e", TaskStatus::Inbox, Priority::Normal, now - 120 * 60 - 1);
    assert!(is_stuck(&past_normal_limit, now, &cfg));
    let urgent_past_short_limit = task("f", TaskStatus::Assigned, Priority::Urgent, now - 31 * 60);
    assert!(is_stuck(&urgent_past_short_limit, now, &cfg));
    let normal_at_31_minutes = task("g", TaskStatus::Assigned, Priority::Normal, now - 31 * 60);
    assert!(!is_stuck(&normal_at_31_minutes, now, &cfg));
    let in_progress_old = task("h", TaskStatus::InProgress, Priority::Urgent, now - 10 * 3600);
    assert!(!is_stuck(&in_progress_old, now, &cfg));
}

#[test]
fn stuck_count_of_empty_set_is_zero() {
    let cfg = MonitoringConfig::startup_default();
    assert_eq!(count_stuck(&Vec::new(), 500, &cfg), 0);
}
