//! The scheduler's decisions: how often to look at the reminders, and which
//! pending reminders have come due and still need their notification.
use crate::clock::{
    epoch_position, local_instant, naive_text, parse_timestamp, parsed_timestamp, read_clock,
    renders, timestamp_text, within_a_day, Clock, LocalDateTime, FIRST_DAY, LAST_DAY,
};
use crate::text::{chars_of, parse_u32, parse_u64, parse_unsigned, push_str, string_of};
use vstd::prelude::*;

verus! {

broadcast use vstd::string::group_string_axioms;

pub const DEFAULT_INTERVAL_SECS: u64 = 30;

/// `get_scheduler_interval`: the stored `scheduler_interval_secs` setting if
/// it reads as a whole number of seconds, else 30.
pub fn scheduler_interval(setting: Option<&str>) -> (r: u64)
    ensures
        match setting {
            Some(v) => match parse_unsigned(v@, u64::MAX as int) {
                Some(n) => r == n,
                None => r == DEFAULT_INTERVAL_SECS,
            },
            None => r == DEFAULT_INTERVAL_SECS,
        },
{
    match setting {
        Some(v) => {
            let c = chars_of(v);
            match parse_u64(&c) {
                Some(n) => n,
                None => DEFAULT_INTERVAL_SECS,
            }
        },
        None => DEFAULT_INTERVAL_SECS,
    }
}

/// How a reminder's due time compares with the clock.
#[derive(Clone, Copy, Debug, PartialEq, Eq, Structural)]
pub enum DueCheck {
    /// The due text is not a `%Y-%m-%dT%H:%M:%S` time.
    Unparsed,
    /// The due time does not exist, or is ambiguous, in the local time zone.
    NoSuchLocalTime,
    /// The due time is still ahead.
    NotYet,
    /// The due time has come.
    Reached,
}

pub const DEFAULT_NOTICE_MINUTES: u32 = 2;

/// The stored `notify_before_minutes` setting if it reads as a whole number
/// of minutes, else 2.
pub open spec fn notice_minutes_spec(setting: Option<Seq<char>>) -> int {
    match setting {
        Some(v) => match parse_unsigned(v, u32::MAX as int) {
            Some(n) => n,
            None => DEFAULT_NOTICE_MINUTES as int,
        },
        None => DEFAULT_NOTICE_MINUTES as int,
    }
}

/// How long before its due time a reminder is notified, in seconds: the
/// `notify_before_minutes` setting.
pub fn notice_seconds(setting: Option<&str>) -> (r: i64)
    ensures
        r == 60 * notice_minutes_spec(
            match setting {
                Some(v) => Some(v@),
                None => None,
            },
        ),
{
    let minutes: u32 = match setting {
        Some(v) => {
            let c = chars_of(v);
            match parse_u32(&c) {
                Some(n) => n,
                None => DEFAULT_NOTICE_MINUTES,
            }
        },
        None => DEFAULT_NOTICE_MINUTES,
    };
    minutes as i64 * 60
}

/// Where a due instant stands against a horizon (the clock's instant, moved
/// ahead by the notice given before due times).
pub open spec fn due_state_spec(instant: Option<i64>, horizon: int) -> DueCheck {
    match instant {
        None => DueCheck::NoSuchLocalTime,
        Some(i) => if i <= horizon {
            DueCheck::Reached
        } else {
            DueCheck::NotYet
        },
    }
}

/// The comparison after the time zone has placed the due time: no instant
/// means no such local time; an instant at or before `now_utc + lead_seconds`
/// has been reached.
pub fn due_state(instant: Option<i64>, now_utc: i64, lead_seconds: i64) -> (r: DueCheck)
    ensures
        r == due_state_spec(instant, now_utc + lead_seconds),
{
    match instant {
        None => DueCheck::NoSuchLocalTime,
        Some(i) => {
            if (i as i128) <= (now_utc as i128) + (lead_seconds as i128) {
                DueCheck::Reached
            } else {
                DueCheck::NotYet
            }
        },
    }
}

/// What a check of the due text `due_at` against `horizon` gives: `Unparsed`
/// where the text is no `%Y-%m-%dT%H:%M:%S` time; else the due time placed in
/// the time zone (which may have no such local time) and compared by
/// `due_state_spec`.  The zone puts the instant's UTC wall clock within a day
/// of the due wall clock; which instant it is, the zone decides.
pub open spec fn due_check_spec(due_at: Seq<char>, horizon: int, r: DueCheck) -> bool {
    match parsed_timestamp(due_at) {
        None => r == DueCheck::Unparsed,
        Some((day, second)) => due_check_at(day, second, horizon, r),
    }
}

/// What a check of the due wall clock `day`, `second` against `horizon`
/// gives: no such local time, or the comparison of an instant whose UTC wall
/// clock is within a day of it.
pub open spec fn due_check_at(day: int, second: int, horizon: int, r: DueCheck) -> bool {
    r == DueCheck::NoSuchLocalTime || exists|i: i64|
        within_a_day(day * 86400 + second, epoch_position(i as int)) && #[trigger] due_state_spec(
            Some(i),
            horizon,
        ) == r
}

/// A due text that renders the wall clock `day`, `second` (in years 1 to
/// 9999) is checked as that very moment: what the library writes as a due
/// time is what the scheduler compares with the clock.
pub open spec fn checked_as_written(due_at: Seq<char>, horizon: int, r: DueCheck) -> bool {
    forall|day: int, second: int|
        #![trigger timestamp_text(day, second)]
        1 <= day <= 3652059 && 0 <= second < 86400 && due_at == timestamp_text(day, second)
            ==> due_check_at(day, second, horizon, r)
}

/// Compares a reminder's due text with the clock: a due time at or before the
/// clock's instant moved ahead by `lead_seconds` has been reached.
pub fn due_check(due_at: &str, clock: &Clock, lead_seconds: i64) -> (r: DueCheck)
    ensures
        due_check_spec(due_at@, clock.utc_seconds + lead_seconds, r),
        checked_as_written(due_at@, clock.utc_seconds + lead_seconds, r),
{
    match parse_timestamp(due_at) {
        None => DueCheck::Unparsed,
        Some(t) => {
            let instant = local_instant(t);
            let r = due_state(instant, clock.utc_seconds, lead_seconds);
            proof {
                if let Some(i) = instant {
                    assert(due_state_spec(Some(i), clock.utc_seconds + lead_seconds) == r);
                }
            }
            r
        },
    }
}

/// A due wall clock more than a day before the horizon has been reached,
/// and one more than a day after it has not, whatever the time zone (unless
/// the zone has no such local time).
pub proof fn lemma_due_check_far_from_horizon(due_at: Seq<char>, horizon: int, r: DueCheck)
    requires
        due_check_spec(due_at, horizon, r),
        parsed_timestamp(due_at) is Some,
    ensures
        ({
            let (day, second) = parsed_timestamp(due_at)->0;
            &&& day * 86400 + second + 86400 <= epoch_position(horizon) ==> r
                == DueCheck::Reached || r == DueCheck::NoSuchLocalTime
            &&& day * 86400 + second - 86400 >= epoch_position(horizon) ==> r
                == DueCheck::NotYet || r == DueCheck::NoSuchLocalTime
        }),
{
}

/// Compares each due text with one reading of the clock, as one pass of the
/// scheduler does.
pub fn due_checks_at(due_ats: &Vec<String>, clock: &Clock, lead_seconds: i64) -> (r: Vec<
    DueCheck,
>)
    ensures
        r@.len() == due_ats@.len(),
        forall|i: int|
            0 <= i < r@.len() ==> due_check_spec(
                due_ats@[i]@,
                clock.utc_seconds + lead_seconds,
                #[trigger] r@[i],
            ) && checked_as_written(due_ats@[i]@, clock.utc_seconds + lead_seconds, r@[i]),
{
    let mut r: Vec<DueCheck> = Vec::new();
    let n = due_ats.len();
    for i in 0..n
        invariant
            n == due_ats@.len(),
            r@.len() == i,
            forall|k: int|
                0 <= k < i ==> due_check_spec(
                    due_ats@[k]@,
                    clock.utc_seconds + lead_seconds,
                    #[trigger] r@[k],
                ) && checked_as_written(due_ats@[k]@, clock.utc_seconds + lead_seconds, r@[k]),
    {
        let c = due_check(due_ats[i].as_str(), clock, lead_seconds);
        r.push(c);
    }
    r
}

/// Each check in `r` is the check of the due text at the same place against
/// `now + lead` (seconds since the Unix epoch).
pub open spec fn checks_against(due_ats: Seq<String>, r: Seq<DueCheck>, now: int, lead: int) -> bool {
    &&& r.len() == due_ats.len()
    &&& forall|i: int|
        0 <= i < r.len() ==> due_check_spec(due_ats[i]@, now + lead, #[trigger] r[i])
            && checked_as_written(due_ats[i]@, now + lead, r[i])
}

/// `due_checks_at` with the clock read now: every check is made against the
/// same instant.
pub fn due_checks_now(due_ats: &Vec<String>, lead_seconds: i64) -> (r: Vec<DueCheck>)
    ensures
        exists|now: i64| #[trigger] checks_against(due_ats@, r@, now as int, lead_seconds as int),
{
    let clock = read_clock();
    let r = due_checks_at(due_ats, &clock, lead_seconds);
    assert(checks_against(due_ats@, r@, clock.utc_seconds as int, lead_seconds as int));
    r
}

/// `check_and_notify`'s decision: a pending reminder whose due time has come
/// (within the notice given before it) is notified, unless it was already
/// displayed for its current due time.  Snoozing or rescheduling gives a
/// reminder a new due time, so it is notified again when that one comes.
pub fn should_notify(status: &str, check: DueCheck, displayed_for_due: u32) -> (r: bool)
    ensures
        r == (status@ == "pending"@ && check == DueCheck::Reached && displayed_for_due == 0),
{
    crate::store::text_equals(status, "pending") && check == DueCheck::Reached && displayed_for_due
        == 0
}

/// How many entries of an event log (reminder id, event type, metadata) say
/// that the reminder `id` was displayed for the due time `due`: what the
/// scheduler counts before notifying.
pub open spec fn displayed_for_due_count(
    log: Seq<(Seq<char>, Seq<char>, Option<Seq<char>>)>,
    id: Seq<char>,
    due: Seq<char>,
) -> nat
    decreases log.len(),
{
    if log.len() == 0 {
        0
    } else {
        displayed_for_due_count(log.drop_last(), id, due) + if log.last() == (
            id,
            "displayed"@,
            Some(due),
        ) {
            1nat
        } else {
            0nat
        }
    }
}

/// A reminder displayed only for earlier due times is notified again once it
/// is pending and its new due time has come: a snooze or a reschedule gives
/// it a due time for which nothing has been displayed, and `should_notify`
/// asks for exactly that.
pub proof fn lemma_notified_again_after_new_due(
    log: Seq<(Seq<char>, Seq<char>, Option<Seq<char>>)>,
    id: Seq<char>,
    new_due: Seq<char>,
)
    requires
        forall|i: int|
            0 <= i < log.len() && (#[trigger] log[i]).0 == id && log[i].1 == "displayed"@
                ==> log[i].2 != Some(new_due),
    ensures
        displayed_for_due_count(log, id, new_due) == 0,
    decreases log.len(),
{
    if log.len() > 0 {
        assert forall|i: int|
            0 <= i < log.drop_last().len() && (#[trigger] log.drop_last()[i]).0 == id
                && log.drop_last()[i].1 == "displayed"@ implies log.drop_last()[i].2 != Some(
            new_due,
        ) by {
            assert(log.drop_last()[i] == log[i]);
        }
        lemma_notified_again_after_new_due(log.drop_last(), id, new_due);
        assert(log.last() == log[log.len() - 1]);
    }
}

/// Where a repeating reminder goes next: its due wall clock `due` moved ahead
/// by the interval, counted from the calendar's first day so that the day
/// and second come out by plain division.
pub open spec fn repeat_target(due: (int, int), interval: int) -> (int, int) {
    let offset = (due.0 - FIRST_DAY) * 86400 + due.1 + interval;
    (FIRST_DAY + offset / 86400, offset % 86400)
}

/// The next due time of a notified reminder: for a repeating one (a positive
/// interval) whose due text is a time, that time moved ahead by the
/// interval, while it stays in the calendar.
pub open spec fn rescheduled_spec(due_at: Seq<char>, repeat: Option<i64>) -> Option<(int, int)> {
    match (parsed_timestamp(due_at), repeat) {
        (Some(t), Some(s)) => if s > 0 && repeat_target(t, s as int).0 <= LAST_DAY {
            Some(repeat_target(t, s as int))
        } else {
            None
        },
        _ => None,
    }
}

/// `check_and_notify`'s rescheduling of repeating reminders: the due text
/// the reminder gets next, or `None` where it does not repeat (or cannot).
pub fn rescheduled_due(due_at: &str, repeat: Option<i64>) -> (r: Option<String>)
    ensures
        match rescheduled_spec(due_at@, repeat) {
            Some((day, second)) => r matches Some(s) && s@ == timestamp_text(day, second)
                && renders(s@, day, second),
            None => r is None,
        },
{
    let interval: i64 = match repeat {
        Some(s) => s,
        None => {
            return None;
        },
    };
    if interval <= 0 {
        return None;
    }
    let t = match parse_timestamp(due_at) {
        Some(t) => t,
        None => {
            return None;
        },
    };
    let base: u64 = (t.day as i64 - FIRST_DAY as i64) as u64 * 86400 + t.second as u64;
    let offset: u64 = match base.checked_add(interval as u64) {
        Some(o) => o,
        None => {
            return None;
        },
    };
    let days: u64 = offset / 86400;
    if days > (LAST_DAY as i64 - FIRST_DAY as i64) as u64 {
        return None;
    }
    let next = LocalDateTime {
        day: (FIRST_DAY as i64 + days as i64) as i32,
        second: (offset % 86400) as u32,
    };
    naive_text(next)
}

/// `check_overdue_on_startup`'s decision: every pending reminder whose due
/// time has come is announced as overdue.
pub fn should_announce_overdue(status: &str, check: DueCheck) -> (r: bool)
    ensures
        r == (status@ == "pending"@ && check == DueCheck::Reached),
{
    crate::store::text_equals(status, "pending") && check == DueCheck::Reached
}

/// The body of a due reminder's notification.
pub fn reminder_body(title: &str) -> (r: String)
    ensures
        r@ == "🔔 "@ + title@,
{
    let mut v: Vec<char> = Vec::new();
    push_str(&mut v, "🔔 ");
    push_str(&mut v, title);
    string_of(&v)
}

/// The title of an overdue reminder's notification.
pub fn overdue_title(title: &str) -> (r: String)
    ensures
        r@ == "📋 Vencido: "@ + title@,
{
    let mut v: Vec<char> = Vec::new();
    push_str(&mut v, "📋 Vencido: ");
    push_str(&mut v, title);
    string_of(&v)
}

/// The body of an overdue reminder's notification.
pub fn overdue_body(due_at: &str) -> (r: String)
    ensures
        r@ == "Este recordatorio venció a las "@ + due_at@,
{
    let mut v: Vec<char> = Vec::new();
    push_str(&mut v, "Este recordatorio venció a las ");
    push_str(&mut v, due_at);
    string_of(&v)
}

} // verus!
