//! Core data model: task and agent enumerations, the task record as the
//! monitoring logic sees it, and the read-only policy configurations.
//!
//! Timestamps are carried as whole seconds since the Unix epoch, which is
//! what every rule in this crate needs of them.

use vstd::prelude::*;

verus! {

/// Workflow position of a task.
#[derive(Clone, Copy, Debug, PartialEq, Eq, Structural)]
pub enum TaskStatus {
    Inbox,
    Assigned,
    InProgress,
    Review,
    Done,
}

/// Priority tier of a task; `Urgent` uses the shorter staleness limit.
#[derive(Clone, Copy, Debug, PartialEq, Eq, Structural)]
pub enum Priority {
    Normal,
    Urgent,
}

/// Role of a registered agent.
#[derive(Clone, Copy, Debug, PartialEq, Eq, Structural)]
pub enum AgentRole {
    Lead,
    Int,
    Spc,
}

/// Liveness state of a registered agent.
#[derive(Clone, Copy, Debug, PartialEq, Eq, Structural)]
pub enum AgentStatus {
    Working,
    Idle,
    Standby,
    Offline,
}

/// Health verdict for the external gateway process.
#[derive(Clone, Copy, Debug, PartialEq, Eq, Structural)]
pub enum HealthStatus {
    Unknown,
    Healthy,
    Crashed,
}

impl HealthStatus {
    /// The lower-case label under which the verdict is reported.
    pub fn label(&self) -> (r: String)
        ensures
            *self == HealthStatus::Unknown ==> r@ == "unknown"@,
            *self == HealthStatus::Healthy ==> r@ == "healthy"@,
            *self == HealthStatus::Crashed ==> r@ == "crashed"@,
    {
        match self {
            HealthStatus::Unknown => String::from_str("unknown"),
            HealthStatus::Healthy => String::from_str("healthy"),
            HealthStatus::Crashed => String::from_str("crashed"),
        }
    }
}

/// A task record, with timestamps as Unix seconds.
#[derive(Clone, Debug, PartialEq, Eq)]
pub struct Task {
    pub id: String,
    pub title: String,
    pub description: Option<String>,
    pub status: TaskStatus,
    pub priority: Priority,
    pub tags: Option<String>,
    pub assignee_id: Option<String>,
    pub reviewer: Option<String>,
    pub reviewer_id: Option<String>,
    pub created_at: i64,
    pub updated_at: i64,
    pub due_at: Option<i64>,
}

/// Gateway-monitoring policy, fixed at process start.
#[derive(Clone, Copy, Debug, PartialEq, Eq, Structural)]
pub struct GatewayConfig {
    pub check_interval_seconds: u64,
    pub health_check_timeout: u64,
    pub max_restart_attempts: u32,
    pub notification_cooldown_minutes: u64,
}

impl GatewayConfig {
    /// Policy values the process starts with: a one-minute cadence, a
    /// five-second probe timeout, three restart attempts and a half-hour
    /// notification cooldown.
    pub open spec fn spec_startup_default() -> GatewayConfig {
        GatewayConfig {
            check_interval_seconds: 60,
            health_check_timeout: 5,
            max_restart_attempts: 3,
            notification_cooldown_minutes: 30,
        }
    }

    /// Policy values the process starts with; see `spec_startup_default`.
    pub fn startup_default() -> (c: GatewayConfig)
        ensures
            c == GatewayConfig::spec_startup_default(),
    {
        GatewayConfig {
            check_interval_seconds: 60,
            health_check_timeout: 5,
            max_restart_attempts: 3,
            notification_cooldown_minutes: 30,
        }
    }
}

/// Staleness limits for the stuck-task rule, in minutes, per priority tier.
#[derive(Clone, Copy, Debug, PartialEq, Eq, Structural)]
pub struct MonitoringConfig {
    pub normal_priority_limit_minutes: u64,
    pub urgent_priority_limit_minutes: u64,
}

impl MonitoringConfig {
    /// A limit is usable when turning it into seconds cannot overflow.
    pub open spec fn well_formed(self) -> bool {
        self.normal_priority_limit_minutes * 60 <= u64::MAX
            && self.urgent_priority_limit_minutes * 60 <= u64::MAX
    }

    /// Policy values the process starts with: two hours for normal
    /// priority, thirty minutes for urgent.
    pub open spec fn spec_startup_default() -> MonitoringConfig {
        MonitoringConfig { normal_priority_limit_minutes: 120, urgent_priority_limit_minutes: 30 }
    }

    /// Policy values the process starts with; see `spec_startup_default`.
    pub fn startup_default() -> (c: MonitoringConfig)
        ensures
            c == MonitoringConfig::spec_startup_default(),
            c.well_formed(),
    {
        MonitoringConfig { normal_priority_limit_minutes: 120, urgent_priority_limit_minutes: 30 }
    }

    /// The staleness limit for one priority tier, in minutes.
    pub open spec fn spec_limit_minutes(self, p: Priority) -> u64 {
        match p {
            Priority::Normal => self.normal_priority_limit_minutes,
            Priority::Urgent => self.urgent_priority_limit_minutes,
        }
    }

    /// The staleness limit for one priority tier, in minutes.
    pub fn limit_minutes(&self, p: Priority) -> (r: u64)
        ensures
            r == self.spec_limit_minutes(p),
    {
        match p {
            Priority::Normal => self.normal_priority_limit_minutes,
            Priority::Urgent => self.urgent_priority_limit_minutes,
        }
    }
}

} // verus!
