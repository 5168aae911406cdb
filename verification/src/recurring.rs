//! The recurring-task scheduler: schedule definitions, validation, and the
//! next-run computation that creating or triggering a definition performs.
//!
//! A definition stores its schedule as text, the way it arrives and is
//! persisted: a kind (`interval`, `daily` or `weekly`), a kind-specific
//! value (the interval's length in minutes, or the weekly schedule's
//! weekday digit) and a time-of-day anchor `HH:MM`. Triggering sets
//! `last_run` to the trigger instant and recomputes `next_run`, which is
//! always strictly in the future; a recomputation that cannot advance the
//! clock — a zero-length interval, or an instant too late to schedule past
//! — is refused as a validation error rather than scheduling an immediate
//! repeat.

use vstd::prelude::*;
use vstd::arithmetic::div_mod::{lemma_add_mod_noop, lemma_add_mod_noop_right,
    lemma_div_multiples_vanish_fancy, lemma_fundamental_div_mod, lemma_mod_add_multiples_vanish,
    lemma_mod_multiples_vanish, lemma_remainder_lower, lemma_remainder_upper, lemma_small_mod};
use crate::clock::unix_now;
use crate::ident::fresh_id;
use crate::parse::{all_digits, clock_time_seconds, decimal_val, digit_val, parse_clock_time,
    parse_decimal_u64, parse_weekday, str_eq, valid_clock_time, valid_weekday};

verus! {

/// The latest instant at which a next run can still be computed for every
/// schedule kind: two weeks of headroom below the largest representable
/// instant.
pub const MAX_SCHEDULE_INSTANT: i64 = i64::MAX - 1209600;

/// A parsed schedule definition.
#[derive(Clone, Copy, Debug, PartialEq, Eq, Structural)]
pub enum Schedule {
    /// Every `minutes` minutes, counted from the moment of the run.
    Interval { minutes: u64 },
    /// Every day at `second_of_day` seconds past midnight.
    Daily { second_of_day: u64 },
    /// Every week on `weekday` (0 is Monday, 6 is Sunday) at
    /// `second_of_day` seconds past midnight.
    Weekly { weekday: u64, second_of_day: u64 },
}

impl Schedule {
    /// A schedule the computation accepts: a positive interval short
    /// enough to count in seconds, a second within the day, a weekday
    /// within the week.
    pub open spec fn wf(self) -> bool {
        match self {
            Schedule::Interval { minutes } => 1 <= minutes && minutes < 1000000000000000,
            Schedule::Daily { second_of_day } => second_of_day < 86400,
            Schedule::Weekly { weekday, second_of_day } => weekday < 7 && second_of_day < 86400,
        }
    }
}

/// Why a definition or a trigger request was refused.
#[derive(Clone, Copy, Debug, PartialEq, Eq, Structural)]
pub enum ScheduleError {
    MissingTitle,
    MissingScheduleType,
    MissingScheduleTime,
    UnknownScheduleType,
    MissingScheduleValue,
    InvalidScheduleValue,
    InvalidScheduleTime,
    ZeroInterval,
    NextRunOutOfRange,
}

impl ScheduleError {
    /// A short description of the refusal, for error payloads.
    pub fn message(&self) -> (r: String)
        ensures
            r@.len() > 0,
            *self == ScheduleError::MissingTitle ==> r@ == "title required"@,
            *self == ScheduleError::MissingScheduleType ==> r@ == "schedule_type required"@,
            *self == ScheduleError::MissingScheduleTime ==> r@ == "schedule_time required"@,
            *self == ScheduleError::UnknownScheduleType ==> r@ == "unknown schedule_type"@,
            *self == ScheduleError::MissingScheduleValue ==> r@ == "schedule_value required"@,
            *self == ScheduleError::InvalidScheduleValue ==> r@ == "invalid schedule_value"@,
            *self == ScheduleError::InvalidScheduleTime ==> r@ == "invalid schedule_time"@,
            *self == ScheduleError::ZeroInterval ==> r@ == "schedule interval must not be zero"@,
            *self == ScheduleError::NextRunOutOfRange ==> r@ == "next run time out of range"@,
    {
        let m: &str = match self {
            ScheduleError::MissingTitle => "title required",
            ScheduleError::MissingScheduleType => "schedule_type required",
            ScheduleError::MissingScheduleTime => "schedule_time required",
            ScheduleError::UnknownScheduleType => "unknown schedule_type",
            ScheduleError::MissingScheduleValue => "schedule_value required",
            ScheduleError::InvalidScheduleValue => "invalid schedule_value",
            ScheduleError::InvalidScheduleTime => "invalid schedule_time",
            ScheduleError::ZeroInterval => "schedule interval must not be zero",
            ScheduleError::NextRunOutOfRange => "next run time out of range",
        };
        proof {
            reveal_strlit("title required");
            reveal_strlit("schedule_type required");
            reveal_strlit("schedule_time required");
            reveal_strlit("unknown schedule_type");
            reveal_strlit("schedule_value required");
            reveal_strlit("invalid schedule_value");
            reveal_strlit("invalid schedule_time");
            reveal_strlit("schedule interval must not be zero");
            reveal_strlit("next run time out of range");
        }
        String::from_str(m)
    }
}

/// The characters of an optional string.
pub open spec fn opt_chars(o: Option<String>) -> Option<Seq<char>> {
    match o {
        Some(s) => Some(s@),
        None => None,
    }
}

/// What parsing the three stored schedule fields yields: the schedule, or
/// the first refusal in field order.
pub open spec fn spec_parse_schedule(
    ty: Seq<char>,
    value: Option<Seq<char>>,
    time: Seq<char>,
) -> Result<Schedule, ScheduleError> {
    if ty == "interval"@ {
        match value {
            None => Err(ScheduleError::MissingScheduleValue),
            Some(v) => if !(1 <= v.len() <= 15 && all_digits(v)) {
                Err(ScheduleError::InvalidScheduleValue)
            } else if decimal_val(v) == 0 {
                Err(ScheduleError::ZeroInterval)
            } else {
                Ok(Schedule::Interval { minutes: decimal_val(v) as u64 })
            },
        }
    } else if ty == "daily"@ {
        if valid_clock_time(time) {
            Ok(Schedule::Daily { second_of_day: clock_time_seconds(time) as u64 })
        } else {
            Err(ScheduleError::InvalidScheduleTime)
        }
    } else if ty == "weekly"@ {
        match value {
            None => Err(ScheduleError::MissingScheduleValue),
            Some(v) => if !valid_weekday(v) {
                Err(ScheduleError::InvalidScheduleValue)
            } else if valid_clock_time(time) {
                Ok(Schedule::Weekly {
                    weekday: digit_val(v[0]) as u64,
                    second_of_day: clock_time_seconds(time) as u64,
                })
            } else {
                Err(ScheduleError::InvalidScheduleTime)
            },
        }
    } else {
        Err(ScheduleError::UnknownScheduleType)
    }
}

/// Parse the three stored schedule fields.
pub fn parse_schedule(ty: &str, value: &Option<String>, time: &str) -> (r: Result<
    Schedule,
    ScheduleError,
>)
    ensures
        r == spec_parse_schedule(ty@, opt_chars(*value), time@),
        r matches Ok(s) ==> s.wf(),
{
    if str_eq(ty, "interval") {
        match value {
            None => Err(ScheduleError::MissingScheduleValue),
            Some(v) => {
                match parse_decimal_u64(v.as_str()) {
                    None => Err(ScheduleError::InvalidScheduleValue),
                    Some(m) => {
                        proof {
                            assert(crate::parse::pow10(15) == 1000000000000000) by {
                                reveal_with_fuel(crate::parse::pow10, 16);
                            }
                        }
                        if m == 0 {
                            Err(ScheduleError::ZeroInterval)
                        } else {
                            Ok(Schedule::Interval { minutes: m })
                        }
                    },
                }
            },
        }
    } else if str_eq(ty, "daily") {
        match parse_clock_time(time) {
            None => Err(ScheduleError::InvalidScheduleTime),
            Some(s) => Ok(Schedule::Daily { second_of_day: s }),
        }
    } else if str_eq(ty, "weekly") {
        match value {
            None => Err(ScheduleError::MissingScheduleValue),
            Some(v) => {
                match parse_weekday(v.as_str()) {
                    None => Err(ScheduleError::InvalidScheduleValue),
                    Some(w) => {
                        match parse_clock_time(time) {
                            None => Err(ScheduleError::InvalidScheduleTime),
                            Some(s) => Ok(Schedule::Weekly { weekday: w, second_of_day: s }),
                        }
                    },
                }
            },
        }
    } else {
        Err(ScheduleError::UnknownScheduleType)
    }
}

/// The next run a schedule yields after the instant `now`: an interval
/// counts forward from `now`; a daily schedule takes the next occurrence
/// of its time of day strictly after `now`; a weekly schedule takes the
/// next occurrence of its time of day on its weekday strictly after
/// `now`. Day zero of the epoch was a Thursday, weekday 3 counted from
/// Monday.
pub open spec fn spec_next_run(s: Schedule, now: int) -> int {
    match s {
        Schedule::Interval { minutes } => now + minutes * 60,
        Schedule::Daily { second_of_day } => {
            let base = (now / 86400) * 86400 + second_of_day;
            if base > now {
                base
            } else {
                base + 86400
            }
        },
        Schedule::Weekly { weekday, second_of_day } => {
            let today = now / 86400;
            let dow = (today + 3) % 7;
            let cand = (today + (weekday + 7 - dow) % 7) * 86400 + second_of_day;
            if cand > now {
                cand
            } else {
                cand + 604800
            }
        },
    }
}

/// Recomputation never schedules an immediate repeat: the next run of a
/// well-formed schedule lies strictly after the instant it is computed
/// from.
pub proof fn lemma_next_run_strictly_future(s: Schedule, now: int)
    requires
        s.wf(),
        0 <= now,
    ensures
        spec_next_run(s, now) > now,
{
    match s {
        Schedule::Interval { minutes } => {
            assert(minutes * 60 >= 60);
        },
        Schedule::Daily { second_of_day } => {
            lemma_fundamental_div_mod(now, 86400);
            lemma_remainder_upper(now, 86400);
            lemma_remainder_lower(now, 86400);
        },
        Schedule::Weekly { weekday, second_of_day } => {
            lemma_fundamental_div_mod(now, 86400);
            lemma_remainder_upper(now, 86400);
            lemma_remainder_lower(now, 86400);
            let today = now / 86400;
            let dow = (today + 3) % 7;
            assert((weekday + 7 - dow) % 7 >= 0) by {
                lemma_remainder_lower(weekday + 7 - dow, 7);
            }
            assert((today + (weekday + 7 - dow) % 7) * 86400 >= today * 86400) by {
                assert((weekday + 7 - dow) % 7 >= 0) by {
                    lemma_remainder_lower(weekday + 7 - dow, 7);
                }
            }
        },
    }
}

/// A daily schedule's next run lands exactly on its second of the day,
/// at most one day ahead.
pub proof fn lemma_daily_run_lands_on_time(second_of_day: u64, now: int)
    requires
        second_of_day < 86400,
        0 <= now,
    ensures
        spec_next_run(Schedule::Daily { second_of_day }, now) % 86400 == second_of_day,
        spec_next_run(Schedule::Daily { second_of_day }, now) <= now + 86400,
{
    let day = now / 86400;
    lemma_fundamental_div_mod(now, 86400);
    lemma_remainder_lower(now, 86400);
    lemma_remainder_upper(now, 86400);
    lemma_small_mod(second_of_day as nat, 86400nat);
    lemma_mod_multiples_vanish(day, second_of_day as int, 86400);
    assert(86400 * day + second_of_day == day * 86400 + second_of_day);
    let base = day * 86400 + second_of_day;
    if base <= now {
        lemma_mod_multiples_vanish(day + 1, second_of_day as int, 86400);
        assert(86400 * (day + 1) + second_of_day == base + 86400);
    }
}

/// A weekly schedule's next run lands exactly on its weekday at its
/// second of the day, at most two weeks ahead.
pub proof fn lemma_weekly_run_lands_on_day_and_time(weekday: u64, second_of_day: u64, now: int)
    requires
        weekday < 7,
        second_of_day < 86400,
        0 <= now,
    ensures
        spec_next_run(Schedule::Weekly { weekday, second_of_day }, now) % 86400 == second_of_day,
        (spec_next_run(Schedule::Weekly { weekday, second_of_day }, now) / 86400 + 3) % 7
            == weekday,
        spec_next_run(Schedule::Weekly { weekday, second_of_day }, now) <= now + 1209600,
{
    let today = now / 86400;
    let dow = (today + 3) % 7;
    let delta = (weekday + 7 - dow) % 7;
    let cand = (today + delta) * 86400 + second_of_day;
    lemma_fundamental_div_mod(now, 86400);
    lemma_remainder_lower(now, 86400);
    lemma_remainder_upper(now, 86400);
    lemma_remainder_lower(today + 3, 7);
    lemma_remainder_upper(today + 3, 7);
    lemma_remainder_lower(weekday + 7 - dow, 7);
    lemma_remainder_upper(weekday + 7 - dow, 7);
    lemma_small_mod(second_of_day as nat, 86400nat);
    lemma_small_mod(weekday as nat, 7nat);
    lemma_small_mod(delta as nat, 7nat);

    // The candidate lands on the right second of the day and the right day.
    lemma_mod_multiples_vanish(today + delta, second_of_day as int, 86400);
    assert(86400 * (today + delta) + second_of_day == cand);
    lemma_div_multiples_vanish_fancy(today + delta, second_of_day as int, 86400);
    assert(cand / 86400 == today + delta);

    // Its day of the week is the configured weekday.
    lemma_add_mod_noop(today + 3, delta, 7);
    lemma_add_mod_noop_right(dow, weekday + 7 - dow, 7);
    lemma_mod_add_multiples_vanish(weekday as int, 7);
    assert((today + delta + 3) % 7 == weekday);

    if cand <= now {
        // One week later: same second of the day, same day of the week.
        lemma_mod_multiples_vanish(today + delta + 7, second_of_day as int, 86400);
        assert(86400 * (today + delta + 7) + second_of_day == cand + 604800);
        lemma_div_multiples_vanish_fancy(today + delta + 7, second_of_day as int, 86400);
        assert((cand + 604800) / 86400 == today + delta + 7);
        lemma_mod_add_multiples_vanish(today + delta + 3, 7);
        assert((today + delta + 7 + 3) % 7 == (today + delta + 3) % 7);
    }
}

/// Triggering an interval definition of `n` minutes at instant `t` yields
/// a next run exactly `n` minutes of seconds later, strictly after the
/// recorded run time `t`.
pub proof fn lemma_interval_trigger_advances(n: u64, t: int)
    requires
        1 <= n,
    ensures
        spec_next_run(Schedule::Interval { minutes: n }, t) == t + n * 60,
        spec_next_run(Schedule::Interval { minutes: n }, t) > t,
{
    assert(n * 60 >= 60);
}

/// Compute the next run after `now`, refusing an instant the clock cannot
/// represent.
pub fn next_run_at(s: &Schedule, now: i64) -> (r: Result<i64, ScheduleError>)
    requires
        s.wf(),
        0 <= now <= MAX_SCHEDULE_INSTANT,
    ensures
        r is Ok <==> spec_next_run(*s, now as int) <= i64::MAX,
        r matches Ok(t) ==> t == spec_next_run(*s, now as int) && now < t,
        r matches Err(e) ==> e == ScheduleError::NextRunOutOfRange,
{
    proof {
        lemma_next_run_strictly_future(*s, now as int);
    }
    match s {
        Schedule::Interval { minutes } => {
            let delta: u64 = *minutes * 60;
            let headroom: u64 = (i64::MAX - now) as u64;
            if delta > headroom {
                Err(ScheduleError::NextRunOutOfRange)
            } else {
                Ok(now + delta as i64)
            }
        },
        Schedule::Daily { second_of_day } => {
            let un: u64 = now as u64;
            let day: u64 = un / 86400;
            proof {
                lemma_fundamental_div_mod(un as int, 86400);
                lemma_remainder_upper(un as int, 86400);
                lemma_remainder_lower(un as int, 86400);
            }
            let base: u64 = day * 86400 + *second_of_day;
            if base > un {
                Ok(base as i64)
            } else {
                Ok((base + 86400) as i64)
            }
        },
        Schedule::Weekly { weekday, second_of_day } => {
            let un: u64 = now as u64;
            let day: u64 = un / 86400;
            proof {
                lemma_fundamental_div_mod(un as int, 86400);
                lemma_remainder_upper(un as int, 86400);
                lemma_remainder_lower(un as int, 86400);
                lemma_remainder_lower((day + 3) as int, 7);
                lemma_remainder_upper((day + 3) as int, 7);
            }
            let dow: u64 = (day + 3) % 7;
            proof {
                lemma_remainder_lower((*weekday + 7 - dow) as int, 7);
                lemma_remainder_upper((*weekday + 7 - dow) as int, 7);
            }
            let delta_days: u64 = (*weekday + 7 - dow) % 7;
            let cand: u64 = (day + delta_days) * 86400 + *second_of_day;
            if cand > un {
                Ok(cand as i64)
            } else {
                Ok((cand + 604800) as i64)
            }
        },
    }
}

/// A recurring-task definition, timestamps as Unix seconds.
#[derive(Clone, Debug, PartialEq, Eq)]
pub struct RecurringTask {
    pub id: String,
    pub title: String,
    pub description: Option<String>,
    pub assignee_id: Option<String>,
    pub schedule_type: String,
    pub schedule_value: Option<String>,
    pub schedule_time: String,
    pub last_run: Option<i64>,
    pub next_run: i64,
    pub is_active: bool,
    pub created_at: i64,
}

/// The record a trigger returns: which definition ran, when, and when it
/// will run next.
#[derive(Clone, Debug, PartialEq, Eq)]
pub struct RecurringTaskRun {
    pub task_id: String,
    pub run_at: i64,
    pub next_run: i64,
}

/// A request to create a definition; every field optional, as it arrives.
#[derive(Clone, Debug, PartialEq, Eq)]
pub struct RecurringTaskInput {
    pub title: Option<String>,
    pub description: Option<String>,
    pub assignee_id: Option<String>,
    pub schedule_type: Option<String>,
    pub schedule_value: Option<String>,
    pub schedule_time: Option<String>,
}

/// What validating a creation request yields: title, kind and time must
/// be present, and the schedule fields must parse.
pub open spec fn spec_validate_input(input: RecurringTaskInput) -> Result<
    Schedule,
    ScheduleError,
> {
    if input.title is None {
        Err(ScheduleError::MissingTitle)
    } else if input.schedule_type is None {
        Err(ScheduleError::MissingScheduleType)
    } else if input.schedule_time is None {
        Err(ScheduleError::MissingScheduleTime)
    } else {
        spec_parse_schedule(
            input.schedule_type->0@,
            opt_chars(input.schedule_value),
            input.schedule_time->0@,
        )
    }
}

/// What creating a definition from a request yields: the validated
/// record, active from the start, with no run yet and a first next run
/// strictly after `now` — or the first refusal.
pub open spec fn spec_create(input: RecurringTaskInput, id: String, now: int) -> Result<
    RecurringTask,
    ScheduleError,
> {
    match spec_validate_input(input) {
        Err(e) => Err(e),
        Ok(s) => if spec_next_run(s, now) > i64::MAX {
            Err(ScheduleError::NextRunOutOfRange)
        } else {
            Ok(RecurringTask {
                id: id,
                title: input.title->0,
                description: input.description,
                assignee_id: input.assignee_id,
                schedule_type: input.schedule_type->0,
                schedule_value: input.schedule_value,
                schedule_time: input.schedule_time->0,
                last_run: None,
                next_run: spec_next_run(s, now) as i64,
                is_active: true,
                created_at: now as i64,
            })
        },
    }
}

/// What triggering a definition yields: the same definition with
/// `last_run` set to the trigger instant and `next_run` recomputed from
/// its schedule, strictly after the trigger instant — or the refusal.
pub open spec fn spec_trigger(t: RecurringTask, now: int) -> Result<
    RecurringTask,
    ScheduleError,
> {
    match spec_parse_schedule(t.schedule_type@, opt_chars(t.schedule_value), t.schedule_time@) {
        Err(e) => Err(e),
        Ok(s) => if spec_next_run(s, now) > i64::MAX {
            Err(ScheduleError::NextRunOutOfRange)
        } else {
            Ok(RecurringTask {
                last_run: Some(now as i64),
                next_run: spec_next_run(s, now) as i64,
                ..t
            })
        },
    }
}

/// Create a definition from a request, under the given identifier, at the
/// instant `now`.
pub fn create(input: RecurringTaskInput, id: String, now: i64) -> (r: Result<
    RecurringTask,
    ScheduleError,
>)
    requires
        0 <= now <= MAX_SCHEDULE_INSTANT,
    ensures
        r == spec_create(input, id, now as int),
        r matches Ok(t) ==> t.next_run > now,
{
    let RecurringTaskInput { title, description, assignee_id, schedule_type, schedule_value,
        schedule_time } = input;
    let title = match title {
        Some(t) => t,
        None => {
            return Err(ScheduleError::MissingTitle);
        },
    };
    let sty = match schedule_type {
        Some(t) => t,
        None => {
            return Err(ScheduleError::MissingScheduleType);
        },
    };
    let stime = match schedule_time {
        Some(t) => t,
        None => {
            return Err(ScheduleError::MissingScheduleTime);
        },
    };
    let schedule = match parse_schedule(sty.as_str(), &schedule_value, stime.as_str()) {
        Ok(s) => s,
        Err(e) => {
            return Err(e);
        },
    };
    let next = match next_run_at(&schedule, now) {
        Ok(t) => t,
        Err(e) => {
            return Err(e);
        },
    };
    Ok(RecurringTask {
        id,
        title,
        description,
        assignee_id,
        schedule_type: sty,
        schedule_value,
        schedule_time: stime,
        last_run: None,
        next_run: next,
        is_active: true,
        created_at: now,
    })
}

/// Create a definition from a request, drawing a fresh identifier and
/// stamping the current instant. Whatever identifier and instant come
/// back, the record is exactly what `spec_create` yields for them; an
/// instant too late to schedule past is refused.
pub fn create_fresh(input: RecurringTaskInput) -> (r: Result<RecurringTask, ScheduleError>)
    ensures
        r matches Ok(t) ==> t.id@.len() == 36 && 0 <= t.created_at && spec_create(
            input,
            t.id,
            t.created_at as int,
        ) == Ok::<RecurringTask, ScheduleError>(t),
        r matches Err(e) ==> (spec_validate_input(input) matches Err(ve) && e == ve) || e
            == ScheduleError::NextRunOutOfRange,
{
    let now = unix_now();
    if now > MAX_SCHEDULE_INSTANT {
        return Err(ScheduleError::NextRunOutOfRange);
    }
    let id = fresh_id();
    create(input, id, now)
}

impl RecurringTask {
    /// Trigger this definition at the instant `now`: the updated
    /// definition and the run record.
    pub fn trigger(&self, now: i64) -> (r: Result<
        (RecurringTask, RecurringTaskRun),
        ScheduleError,
    >)
        requires
            0 <= now <= MAX_SCHEDULE_INSTANT,
        ensures
            r matches Ok(p) ==> spec_trigger(*self, now as int) == Ok::<
                RecurringTask,
                ScheduleError,
            >(p.0) && p.1.task_id == self.id && p.1.run_at == now && p.1.next_run == p.0.next_run
                && now < p.0.next_run,
            r matches Err(e) ==> spec_trigger(*self, now as int) == Err::<
                RecurringTask,
                ScheduleError,
            >(e),
    {
        let schedule = match parse_schedule(
            self.schedule_type.as_str(),
            &self.schedule_value,
            self.schedule_time.as_str(),
        ) {
            Ok(s) => s,
            Err(e) => {
                return Err(e);
            },
        };
        let next = match next_run_at(&schedule, now) {
            Ok(t) => t,
            Err(e) => {
                return Err(e);
            },
        };
        let updated = RecurringTask {
            id: self.id.clone(),
            title: self.title.clone(),
            description: clone_opt_string(&self.description),
            assignee_id: clone_opt_string(&self.assignee_id),
            schedule_type: self.schedule_type.clone(),
            schedule_value: clone_opt_string(&self.schedule_value),
            schedule_time: self.schedule_time.clone(),
            last_run: Some(now),
            next_run: next,
            is_active: self.is_active,
            created_at: self.created_at,
        };
        let run = RecurringTaskRun { task_id: self.id.clone(), run_at: now, next_run: next };
        Ok((updated, run))
    }

    /// Trigger this definition at the current instant. Whatever instant
    /// the clock hands back, the outcome is exactly `spec_trigger` at it;
    /// an instant too late to schedule past is refused.
    pub fn trigger_now(&self) -> (r: Result<(RecurringTask, RecurringTaskRun), ScheduleError>)
        ensures
            r matches Ok(p) ==> 0 <= p.1.run_at && spec_trigger(*self, p.1.run_at as int) == Ok::<
                RecurringTask,
                ScheduleError,
            >(p.0) && p.1.task_id == self.id && p.1.next_run == p.0.next_run && p.1.run_at
                < p.0.next_run,
            r matches Err(e) ==> (spec_parse_schedule(
                self.schedule_type@,
                opt_chars(self.schedule_value),
                self.schedule_time@,
            ) matches Err(pe) && e == pe) || e == ScheduleError::NextRunOutOfRange,
    {
        let now = unix_now();
        if now > MAX_SCHEDULE_INSTANT {
            return Err(ScheduleError::NextRunOutOfRange);
        }
        self.trigger(now)
    }

    /// Whether the scheduler-loop tick should fire this definition at
    /// `now`: it is active and its next run is due.
    pub open spec fn spec_is_due(self, now: int) -> bool {
        self.is_active && self.next_run <= now
    }

    /// Whether the scheduler-loop tick should fire this definition at
    /// `now`.
    pub fn is_due(&self, now: i64) -> (r: bool)
        ensures
            r == self.spec_is_due(now as int),
    {
        self.is_active && self.next_run <= now
    }
}

/// The definitions a scheduler-loop tick at `now` should fire: the
/// positions of every active, due definition, in order.
pub fn due_indices(tasks: &Vec<RecurringTask>, now: i64) -> (r: Vec<usize>)
    ensures
        forall|k: int|
            0 <= k < r@.len() ==> (#[trigger] r@[k]) < tasks@.len() && tasks@[r@[k] as int].spec_is_due(
                now as int,
            ),
        forall|j: int|
            0 <= j < tasks@.len() && (#[trigger] tasks@[j]).spec_is_due(now as int) ==> exists|
                k: int,
            | 0 <= k < r@.len() && r@[k] == j,
        forall|k1: int, k2: int| 0 <= k1 < k2 < r@.len() ==> r@[k1] < r@[k2],
{
    let mut r: Vec<usize> = Vec::new();
    let mut i: usize = 0;
    let len = tasks.len();
    while i < len
        invariant
            i <= len,
            len == tasks@.len(),
            forall|k: int|
                0 <= k < r@.len() ==> (#[trigger] r@[k]) < i && tasks@[r@[k] as int].spec_is_due(
                    now as int,
                ),
            forall|j: int|
                0 <= j < i && (#[trigger] tasks@[j]).spec_is_due(now as int) ==> exists|k: int|
                    0 <= k < r@.len() && r@[k] == j,
            forall|k1: int, k2: int| 0 <= k1 < k2 < r@.len() ==> r@[k1] < r@[k2],
        decreases len - i,
    {
        if tasks[i].is_due(now) {
            let ghost old_r = r@;
            r.push(i);
            proof {
                assert forall|j: int|
                    0 <= j < i + 1 && (#[trigger] tasks@[j]).spec_is_due(now as int) implies exists|
                    k: int,
                | 0 <= k < r@.len() && r@[k] == j by {
                    if j == i as int {
                        assert(r@[r@.len() - 1] == i as usize);
                    } else {
                        let k = choose|k: int| 0 <= k < old_r.len() && old_r[k] == j;
                        assert(r@[k] == j);
                    }
                }
            }
        }
        i = i + 1;
    }
    r
}

/// One string field copied.
fn clone_opt_string(o: &Option<String>) -> (r: Option<String>)
    ensures
        r == *o,
{
    match o {
        Some(s) => Some(s.clone()),
        None => None,
    }
}

} // verus!
