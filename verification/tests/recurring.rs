use clawcontrol::parse::{parse_clock_time, parse_decimal_u64, parse_weekday, str_eq};
use clawcontrol::recurring::{
    create, create_fresh, due_indices, next_run_at, parse_schedule, RecurringTask,
    RecurringTaskInput, Schedule, ScheduleError,
};

fn input(
    title: Option<&str>,
    ty: Option<&str>,
    value: Option<&str>,
    time: Option<&str>,
) -> RecurringTaskInput {
    RecurringTaskInput {
        title: title.map(|s| s.to_string()),
        description: None,
        assignee_id: None,
        schedule_type: ty.map(|s| s.to_string()),
        schedule_value: value.map(|s| s.to_string()),
        schedule_time: time.map(|s| s.to_string()),
    }
}

fn interval_task(value: &str) -> RecurringTask {
    create(
        input(Some("report"), Some("interval"), Some(value), Some("09:00")),
        "task-1".to_string(),
        0,
    )
    .expect("interval definition should be accepted")
}

#[test]
fn interval_trigger_advances_by_exactly_the_interval() {
    let task = interval_task("30");
    let t: i64 = 1_000_000;
    let (updated, run) = task.trigger(t).expect("trigger should succeed");
    assert_eq!(updated.last_run, Some(t));
    assert_eq!(updated.next_run, t + 30 * 60);
    assert!(updated.next_run > t);
    assert_eq!(run.task_id, "task-1");
    assert_eq!(run.run_at, t);
    assert_eq!(run.next_run, updated.next_run);
}

#[test]
fn create_validates_required_fields_in_order() {
    let t = 1000;
    let id = || "id".to_string();
    assert_eq!(
        create(input(None, Some("interval"), Some("5"), Some("09:00")), id(), t),
        Err(ScheduleError::MissingTitle)
    );
    assert_eq!(
        create(input(Some("x"), None, Some("5"), Some("09:00")), id(), t),
        Err(ScheduleError::MissingScheduleType)
    );
    assert_eq!(
        create(input(Some("x"), Some("interval"), Some("5"), None), id(), t),
        Err(ScheduleError::MissingScheduleTime)
    );
    assert_eq!(
        create(input(Some("x"), Some("monthly"), Some("5"), Some("09:00")), id(), t),
        Err(ScheduleError::UnknownScheduleType)
    );
    assert_eq!(
        create(input(Some("x"), Some("interval"), None, Some("09:00")), id(), t),
        Err(ScheduleError::MissingScheduleValue)
    );
    assert_eq!(
        create(input(Some("x"), Some("interval"), Some("abc"), Some("09:00")), id(), t),
        Err(ScheduleError::InvalidScheduleValue)
    );
    assert_eq!(
        create(input(Some("x"), Some("interval"), Some("0"), Some("09:00")), id(), t),
        Err(ScheduleError::ZeroInterval)
    );
    assert_eq!(
        create(input(Some("x"), Some("daily"), None, Some("25:00")), id(), t),
        Err(ScheduleError::InvalidScheduleTime)
    );
    assert_eq!(
        create(input(Some("x"), Some("weekly"), Some("7"), Some("09:00")), id(), t),
        Err(ScheduleError::InvalidScheduleValue)
    );
}

#[test]
fn create_fills_the_record_and_schedules_strictly_ahead() {
    let now = 500_000;
    let t = create(
        input(Some("daily report"), Some("daily"), None, Some("06:30")),
        "rt-9".to_string(),
        now,
    )
    .expect("daily definition should be accepted");
    assert_eq!(t.id, "rt-9");
    assert_eq!(t.title, "daily report");
    assert_eq!(t.schedule_type, "daily");
    assert_eq!(t.schedule_time, "06:30");
    assert_eq!(t.last_run, None);
    assert!(t.is_active);
    assert_eq!(t.created_at, now);
    assert!(t.next_run > now);
}

#[test]
fn huge_interval_near_the_end_of_time_is_refused() {
    let task = interval_task("999999999999999");
    let late = i64::MAX - 1_209_600;
    assert!(matches!(task.trigger(late), Err(ScheduleError::NextRunOutOfRange)));
    assert_eq!(
        create(
            input(Some("x"), Some("interval"), Some("999999999999999"), Some("09:00")),
            "id".to_string(),
            late,
        ),
        Err(ScheduleError::NextRunOutOfRange)
    );
}

#[test]
fn daily_schedule_takes_the_next_occurrence_strictly_after_now() {
    // 2023-11-14T22:13:20Z; 06:30 has passed, so the next run is tomorrow.
    let now: i64 = 1_700_000_000;
    let next = next_run_at(&Schedule::Daily { second_of_day: 6 * 3600 + 30 * 60 }, now)
        .expect("in range");
    assert_eq!(next, 1_700_029_800);
    // A time of day still ahead today is taken today.
    let tonight = next_run_at(&Schedule::Daily { second_of_day: 23 * 3600 }, now)
        .expect("in range");
    assert_eq!(tonight, 1_700_002_800);
    assert!(tonight > now);
}

#[test]
fn weekly_schedule_lands_on_the_configured_weekday() {
    // 2023-11-14 is a Tuesday (weekday 1 counted from Monday). Weekday 4 is
    // Friday, three days later, at 06:30.
    let now: i64 = 1_700_000_000;
    let next = next_run_at(
        &Schedule::Weekly { weekday: 4, second_of_day: 6 * 3600 + 30 * 60 },
        now,
    )
    .expect("in range");
    assert_eq!(next, 1_700_202_600);
    assert_eq!((next / 86_400 + 3) % 7, 4);
    assert_eq!(next % 86_400, 6 * 3600 + 30 * 60);
}

#[test]
fn weekly_same_day_earlier_time_waits_a_whole_week() {
    // Tuesday at 22:13:20; Tuesday 06:30 has passed, so next week's Tuesday.
    let now: i64 = 1_700_000_000;
    let next = next_run_at(
        &Schedule::Weekly { weekday: 1, second_of_day: 6 * 3600 + 30 * 60 },
        now,
    )
    .expect("in range");
    assert_eq!(next, 1_699_943_400 + 604_800);
    assert!(next > now);
}

#[test]
fn parse_helpers_accept_exactly_the_documented_shapes() {
    assert_eq!(parse_decimal_u64("30"), Some(30));
    assert_eq!(parse_decimal_u64("007"), Some(7));
    assert_eq!(parse_decimal_u64(""), None);
    assert_eq!(parse_decimal_u64("12a"), None);
    assert_eq!(parse_decimal_u64("999999999999999"), Some(999_999_999_999_999));
    assert_eq!(parse_decimal_u64("1000000000000000"), None);
    assert_eq!(parse_clock_time("06:30"), Some(6 * 3600 + 30 * 60));
    assert_eq!(parse_clock_time("00:00"), Some(0));
    assert_eq!(parse_clock_time("23:59"), Some(23 * 3600 + 59 * 60));
    assert_eq!(parse_clock_time("24:00"), None);
    assert_eq!(parse_clock_time("12:60"), None);
    assert_eq!(parse_clock_time("1230"), None);
    assert_eq!(parse_weekday("0"), Some(0));
    assert_eq!(parse_weekday("6"), Some(6));
    assert_eq!(parse_weekday("7"), None);
    assert_eq!(parse_weekday("mon"), None);
    assert!(str_eq("interval", "interval"));
    assert!(!str_eq("interval", "daily"));
}

#[test]
fn parse_schedule_builds_the_typed_schedule() {
    assert_eq!(
        parse_schedule("interval", &Some("45".to_string()), "09:00"),
        Ok(Schedule::Interval { minutes: 45 })
    );
    assert_eq!(
        parse_schedule("daily", &None, "06:30"),
        Ok(Schedule::Daily { second_of_day: 6 * 3600 + 30 * 60 })
    );
    assert_eq!(
        parse_schedule("weekly", &Some("4".to_string()), "06:30"),
        Ok(Schedule::Weekly { weekday: 4, second_of_day: 6 * 3600 + 30 * 60 })
    );
    assert_eq!(
        parse_schedule("weekly", &None, "06:30"),
        Err(ScheduleError::MissingScheduleValue)
    );
}

#[test]
fn fresh_creation_draws_a_uuid_shaped_identifier() {
    let t = create_fresh(input(Some("x"), Some("interval"), Some("5"), Some("09:00")))
        .expect("creation should succeed");
    assert_eq!(t.id.len(), 36);
    let hyphens: Vec<usize> = t.id.char_indices().filter(|(_, c)| *c == '-').map(|(i, _)| i).collect();
    assert_eq!(hyphens, vec![8, 13, 18, 23]);
    let other = create_fresh(input(Some("x"), Some("interval"), Some("5"), Some("09:00")))
        .expect("creation should succeed");
    assert_ne!(t.id, other.id);
    assert!(t.next_run > t.created_at);
}

#[test]
fn triggering_now_records_a_real_instant() {
    let task = interval_task("1");
    let (updated, run) = task.trigger_now().expect("trigger should succeed");
    assert!(run.run_at >= 0);
    assert_eq!(updated.last_run, Some(run.run_at));
    assert_eq!(updated.next_run, run.run_at + 60);
}

#[test]
fn due_indices_lists_exactly_the_active_due_definitions() {
    let now = 1_000_000;
    let mut a = interval_task("5");
    a.next_run = now - 1;
    let mut b = interval_task("5");
    b.next_run = now + 1;
    let mut c = interval_task("5");
    c.next_run = now;
    let mut d = interval_task("5");
    d.next_run = now - 100;
    d.is_active = false;
    let tasks = vec![a, b, c, d];
    assert_eq!(due_indices(&tasks, now), vec![0, 2]);
}

#[test]
fn schedule_errors_describe_themselves() {
    assert!(!ScheduleError::MissingTitle.message().is_empty());
    assert_eq!(ScheduleError::ZeroInterval.message(), "schedule interval must not be zero");
    assert_eq!(ScheduleError::NextRunOutOfRange.message(), "next run time out of range");
}
