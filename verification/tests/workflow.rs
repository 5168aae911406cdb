use clawcontrol::hub::{BroadcastHub, Event};
use clawcontrol::models::{Priority, Task, TaskStatus};
use clawcontrol::workflow::{apply_status_change, hardened_allows};

fn task(id: &str, status: TaskStatus) -> Task {
    Task {
        id: id.to_string(),
        title: "a task".to_string(),
        description: Some("desc".to_string()),
        status,
        priority: Priority::Normal,
        tags: None,
        assignee_id: Some("agent-1".to_string()),
        reviewer: None,
        reviewer_id: None,
        created_at: 100,
        updated_at: 100,
        due_at: None,
    }
}

#[test]
fn set_status_rewrites_status_and_update_time_only() {
    let mut t = task("t-7", TaskStatus::Inbox);
    let e = t.set_status(TaskStatus::Assigned, 5_000);
    assert_eq!(t.status, TaskStatus::Assigned);
    assert_eq!(t.updated_at, 5_000);
    assert_eq!(t.id, "t-7");
    assert_eq!(t.title, "a task");
    assert_eq!(t.description, Some("desc".to_string()));
    assert_eq!(t.assignee_id, Some("agent-1".to_string()));
    assert_eq!(t.created_at, 100);
    assert_eq!(
        e,
        Event::StatusChanged { task_id: "t-7".to_string(), status: TaskStatus::Assigned }
    );
}

#[test]
fn accepted_change_is_announced_to_subscribers() {
    let mut hub = BroadcastHub::new(16);
    let sub = hub.subscribe();
    let mut t = task("t-2", TaskStatus::InProgress);
    apply_status_change(&mut t, TaskStatus::Review, 9_000, &mut hub);
    assert_eq!(t.status, TaskStatus::Review);
    assert_eq!(t.updated_at, 9_000);
    assert_eq!(
        hub.recv(sub),
        Some(Event::StatusChanged { task_id: "t-2".to_string(), status: TaskStatus::Review })
    );
    assert_eq!(hub.recv(sub), None);
}

#[test]
fn hardened_rule_guards_inbox_and_done() {
    assert!(hardened_allows(TaskStatus::Inbox, TaskStatus::Inbox));
    assert!(hardened_allows(TaskStatus::Inbox, TaskStatus::Assigned));
    assert!(hardened_allows(TaskStatus::Assigned, TaskStatus::InProgress));
    assert!(hardened_allows(TaskStatus::InProgress, TaskStatus::Review));
    assert!(hardened_allows(TaskStatus::Review, TaskStatus::Done));
    assert!(hardened_allows(TaskStatus::Review, TaskStatus::Assigned));
    assert!(!hardened_allows(TaskStatus::Assigned, TaskStatus::Inbox));
    assert!(!hardened_allows(TaskStatus::Done, TaskStatus::Review));
    assert!(hardened_allows(TaskStatus::Done, TaskStatus::Done));
}
