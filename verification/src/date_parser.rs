//! Interpretation of Spanish reminder phrases: which moment a phrase such as
//! "comprar leche mañana a las 9" or "reunión en 30 minutos" names, how sure
//! the reading is, and what is left of the phrase as the reminder's title.
//!
//! The work is split in three stages.  `reading_spec` decides, from the text
//! alone, what kind of moment is meant (`DuePlan`).  `due_of` places that plan
//! relative to the current local wall clock (`Due`).  `parse_reminder_text`
//! reads the clock and renders the moment in the machine's time zone.
use crate::clock::{
    after_in_range, is_timestamp_text, local_text_after, local_text_at, read_clock, renders,
    renders_near, weekday, weekday_index, Clock, LocalDateTime, FIRST_DAY, LAST_DAY,
};
use crate::pattern::{
    group_chars, group_text, groups_view, lowercase, lowercased, search, search_spec, Search,
    SearchView,
};
use crate::text::{
    chars_are, chars_of, contains_str, has_substring, is_trimmed, lemma_trim_is_trimmed,
    parse_i64, parse_i64_spec, parse_u32, parse_unsigned, push_str, push_two_digits,
    lemma_remove_absent, lemma_remove_trailing, occurs_at, remove_all, removed_str, string_of,
    trim, trimmed, two_digit_text,
};
use vstd::prelude::*;

verus! {

broadcast use vstd::string::group_string_axioms;

/// "en 15 minutos", "dentro de 5 min".
pub const RELATIVE_MINUTES: &'static str = "(?:en|dentro de)\\s+(\\d+)\\s*(?:minutos?|min)";

/// "en una hora", "dentro de un minuto".
pub const RELATIVE_ONE_UNIT: &'static str = "(?:en|dentro de)\\s+una?\\s*(?:hora|minuto)";

/// "en 2 horas", "dentro de 3 hrs".
pub const RELATIVE_HOURS: &'static str = "(?:en|dentro de)\\s+(\\d+)\\s*(?:horas?|hrs?)";

/// "3 días", "10 dias".
pub const DAY_COUNT: &'static str = "(\\d+)\\s*(?:días?|dias?)";

/// "a las 10:30", "a las 5 de la tarde", "alas 7", "a las 3pm".
pub const TIME_OF_DAY: &'static str =
    "(?:a\\s*las|alas)\\s*(\\d{1,2})(?::(\\d{2}))?\\s*(?:de\\s*la\\s*(mañana|tarde|noche)|(am|pm)\\b)?";

/// "cada hora", "cada 30 minutos", "cada día", "cada 2 semanas".
pub const REPETITION: &'static str =
    "cada\\s+(?:(\\d+)\\s*)?(minutos?|min|horas?|hrs?|días?|dias?|semanas?)";

/// "18:45".
pub const CLOCK_TIME: &'static str = "(\\d{1,2}):(\\d{2})";

/// The title given to a reminder whose phrase leaves no title.
pub const DEFAULT_TITLE: &'static str = "Recordatorio";

/// Nine in the morning, the time assumed when a day is named without one.
pub const NINE_AM: u32 = 32400;

// ---------------------------------------------------------------------------
// Plans and readings
// ---------------------------------------------------------------------------

#[derive(Clone, Copy, Debug, PartialEq, Eq, Structural)]
pub enum TimeUnit {
    Minutes,
    Hours,
    Days,
    Weeks,
}

/// The length of a unit in seconds.
pub open spec fn unit_seconds(u: TimeUnit) -> int {
    match u {
        TimeUnit::Minutes => 60,
        TimeUnit::Hours => 3600,
        TimeUnit::Days => 86400,
        TimeUnit::Weeks => 604800,
    }
}

/// The kind of moment a phrase names, before it is placed on the calendar.
#[derive(Clone, Copy, Debug, PartialEq, Eq, Structural)]
pub enum DuePlan {
    /// `amount` units after now.
    After { amount: i64, unit: TimeUnit },
    /// Tomorrow at `second` of the day.
    Tomorrow { second: u32 },
    /// Today at `second` of the day.
    Today { second: u32 },
    /// The next day (after today) of the given weekday, Monday being 0.
    NextWeekday { weekday: u32, second: u32 },
    /// The next time the clock shows `second`: today if still ahead, else tomorrow.
    NextOccurrence { second: u32 },
}

/// A reading of a phrase: the plan, its confidence in percent, and the part
/// of the phrase that named the moment.
pub struct Reading {
    pub due: DuePlan,
    pub confidence_percent: u32,
    pub expression: Option<Vec<char>>,
}

pub struct ReadingView {
    pub due: DuePlan,
    pub confidence_percent: u32,
    pub expression: Option<Seq<char>>,
}

pub open spec fn opt_chars_view(o: Option<Vec<char>>) -> Option<Seq<char>> {
    match o {
        Some(v) => Some(v@),
        None => None,
    }
}

pub open spec fn opt_string_view(o: Option<String>) -> Option<Seq<char>> {
    match o {
        Some(s) => Some(s@),
        None => None,
    }
}

impl Reading {
    pub open spec fn view(&self) -> ReadingView {
        ReadingView {
            due: self.due,
            confidence_percent: self.confidence_percent,
            expression: opt_chars_view(self.expression),
        }
    }
}

pub open spec fn opt_reading_view(r: Option<Reading>) -> Option<ReadingView> {
    match r {
        Some(x) => Some(x.view()),
        None => None,
    }
}

pub open spec fn reading_of(due: DuePlan, confidence: u32, expression: Option<Seq<char>>) -> Option<
    ReadingView,
> {
    Some(ReadingView { due, confidence_percent: confidence, expression })
}

pub open spec fn at_most(a: int, b: int) -> int {
    if a <= b {
        a
    } else {
        b
    }
}

/// The second of the day of hour `h` and minute `m`, each first cut down to
/// 23 and 59.
pub open spec fn clock_seconds(h: int, m: int) -> int {
    at_most(h, 23) * 3600 + at_most(m, 59) * 60
}

// ---------------------------------------------------------------------------
// Times of day
// ---------------------------------------------------------------------------

/// The time named by a match of `TIME_OF_DAY`: hour from group 1 (no time at
/// all if it does not parse), minute from group 2 (0 if it does not parse),
/// afternoon or night from group 3, or "pm" from group 4, move hours before
/// 12 by twelve, and 12 without them means midnight.
pub open spec fn time_of_day_spec(g: Seq<Option<Seq<char>>>) -> Option<u32> {
    match parse_unsigned(group_text(g, 1), u32::MAX as int) {
        None => None,
        Some(h) => {
            let m = match parse_unsigned(group_text(g, 2), u32::MAX as int) {
                Some(m) => m,
                None => 0,
            };
            let pm = is_afternoon(g);
            let h24 = if pm && h < 12 {
                h + 12
            } else if !pm && h == 12 {
                0
            } else {
                h
            };
            Some(clock_seconds(h24, m) as u32)
        },
    }
}

/// A match of `TIME_OF_DAY` names an afternoon or evening hour.
pub open spec fn is_afternoon(g: Seq<Option<Seq<char>>>) -> bool {
    group_text(g, 3) == "tarde"@ || group_text(g, 3) == "noche"@ || group_text(g, 4) == "pm"@
}

/// The time of day a (lower-case) text names: first "a las H[:MM] [de la
/// mañana|tarde|noche]", else "H:MM".
pub open spec fn time_in_spec(t: Seq<char>) -> Option<u32> {
    match search_spec(TIME_OF_DAY@, t) {
        SearchView::Invalid => None,
        SearchView::Found(g) => time_of_day_spec(g),
        SearchView::NoMatch => match search_spec(CLOCK_TIME@, t) {
            SearchView::Found(g) => match (
                parse_unsigned(group_text(g, 1), u32::MAX as int),
                parse_unsigned(group_text(g, 2), u32::MAX as int),
            ) {
                (Some(h), Some(m)) => Some(clock_seconds(h, m) as u32),
                _ => None,
            },
            _ => None,
        },
    }
}

/// Every time of day the parser produces is a whole minute of the day.
pub open spec fn is_minute_of_day(s: int) -> bool {
    0 <= s < 86400 && s % 60 == 0
}

proof fn lemma_clock_seconds(h: int, m: int)
    requires
        h >= 0,
        m >= 0,
    ensures
        is_minute_of_day(clock_seconds(h, m)),
        clock_seconds(h, m) / 3600 == at_most(h, 23),
        (clock_seconds(h, m) % 3600) / 60 == at_most(m, 59),
{
    let a = at_most(h, 23);
    let b = at_most(m, 59);
    assert(0 <= a <= 23 && 0 <= b <= 59);
    assert((a * 3600 + b * 60) % 60 == 0) by (nonlinear_arith)
        requires
            0 <= a <= 23,
            0 <= b <= 59,
    ;
    assert((a * 3600 + b * 60) / 3600 == a) by (nonlinear_arith)
        requires
            0 <= a <= 23,
            0 <= b <= 59,
    ;
    assert((a * 3600 + b * 60) % 3600 == b * 60) by (nonlinear_arith)
        requires
            0 <= a <= 23,
            0 <= b <= 59,
    ;
}

/// Times read from a text are whole minutes of the day.
pub proof fn lemma_time_in_is_minute_of_day(t: Seq<char>)
    ensures
        time_in_spec(t) matches Some(s) ==> is_minute_of_day(s as int),
{
    match search_spec(TIME_OF_DAY@, t) {
        SearchView::Found(g) => {
            if let Some(h) = parse_unsigned(group_text(g, 1), u32::MAX as int) {
                let m = match parse_unsigned(group_text(g, 2), u32::MAX as int) {
                    Some(m) => m,
                    None => 0,
                };
                let pm = is_afternoon(g);
                let h24 = if pm && h < 12 {
                    h + 12
                } else if !pm && h == 12 {
                    0
                } else {
                    h
                };
                lemma_clock_seconds(h24, m);
            }
        },
        SearchView::NoMatch => {
            if let SearchView::Found(g) = search_spec(CLOCK_TIME@, t) {
                if let (Some(h), Some(m)) = (
                    parse_unsigned(group_text(g, 1), u32::MAX as int),
                    parse_unsigned(group_text(g, 2), u32::MAX as int),
                ) {
                    lemma_clock_seconds(h, m);
                }
            }
        },
        SearchView::Invalid => {},
    }
}

fn clock_seconds_exec(h: u32, m: u32) -> (s: u32)
    ensures
        s as int == clock_seconds(h as int, m as int),
        is_minute_of_day(s as int),
{
    let hh = if h <= 23 {
        h
    } else {
        23
    };
    let mm = if m <= 59 {
        m
    } else {
        59
    };
    proof {
        lemma_clock_seconds(h as int, m as int);
    }
    hh * 3600 + mm * 60
}

fn time_of_day(g: &Vec<Option<String>>) -> (r: Option<u32>)
    ensures
        r == time_of_day_spec(groups_view(g@)),
{
    let hour_text = group_chars(g, 1);
    let h = match parse_u32(&hour_text) {
        Some(h) => h,
        None => {
            return None;
        },
    };
    let minute_text = group_chars(g, 2);
    let m = match parse_u32(&minute_text) {
        Some(m) => m,
        None => 0,
    };
    let period = group_chars(g, 3);
    let suffix = group_chars(g, 4);
    let pm = chars_are(&period, "tarde") || chars_are(&period, "noche") || chars_are(&suffix, "pm");
    let h24 = if pm && h < 12 {
        h + 12
    } else if !pm && h == 12 {
        0
    } else {
        h
    };
    Some(clock_seconds_exec(h24, m))
}

/// The time of day named in a text (`extract_time_from_text`), as a second of
/// the day.
pub fn extract_time_from_text(t: &str) -> (r: Option<u32>)
    ensures
        r == time_in_spec(t@),
{
    match search(TIME_OF_DAY, t) {
        Search::Invalid => None,
        Search::Found(g) => time_of_day(&g),
        Search::NoMatch => match search(CLOCK_TIME, t) {
            Search::Found(g) => {
                let ht = group_chars(&g, 1);
                let mt = group_chars(&g, 2);
                match (parse_u32(&ht), parse_u32(&mt)) {
                    (Some(h), Some(m)) => Some(clock_seconds_exec(h, m)),
                    _ => None,
                }
            },
            _ => None,
        },
    }
}

// ---------------------------------------------------------------------------
// The individual readings, each over the lower-case text
// ---------------------------------------------------------------------------

pub open spec fn minutes_reading(t: Seq<char>) -> Option<ReadingView> {
    match search_spec(RELATIVE_MINUTES@, t) {
        SearchView::Invalid => None,
        SearchView::Found(g) => match parse_i64_spec(group_text(g, 1)) {
            Some(n) => reading_of(
                DuePlan::After { amount: n as i64, unit: TimeUnit::Minutes },
                95,
                Some(group_text(g, 0)),
            ),
            None => None,
        },
        SearchView::NoMatch => match search_spec(RELATIVE_ONE_UNIT@, t) {
            SearchView::Found(g) => {
                let e = group_text(g, 0);
                let unit = if has_substring(e, "hora"@) {
                    TimeUnit::Hours
                } else {
                    TimeUnit::Minutes
                };
                reading_of(DuePlan::After { amount: 1, unit }, 90, Some(e))
            },
            _ => None,
        },
    }
}

pub open spec fn hours_reading(t: Seq<char>) -> Option<ReadingView> {
    match search_spec(RELATIVE_HOURS@, t) {
        SearchView::Found(g) => match parse_i64_spec(group_text(g, 1)) {
            Some(n) => reading_of(
                DuePlan::After { amount: n as i64, unit: TimeUnit::Hours },
                95,
                Some(group_text(g, 0)),
            ),
            None => None,
        },
        _ => None,
    }
}

pub open spec fn time_or_nine(t: Seq<char>) -> u32 {
    match time_in_spec(t) {
        Some(s) => s,
        None => NINE_AM,
    }
}

/// "mañana" names tomorrow, except inside "de la mañana", which only marks a
/// morning hour.
pub open spec fn tomorrow_reading(t: Seq<char>) -> Option<ReadingView> {
    if has_substring(remove_all(t, "de la mañana"@), "mañana"@) {
        reading_of(DuePlan::Tomorrow { second: time_or_nine(t) }, 85, Some("mañana"@))
    } else {
        None
    }
}

pub open spec fn today_reading(t: Seq<char>) -> Option<ReadingView> {
    if has_substring(t, "hoy"@) {
        match time_in_spec(t) {
            Some(s) => reading_of(DuePlan::Today { second: s }, 85, Some("hoy"@)),
            None => None,
        }
    } else {
        None
    }
}

/// The weekday names searched for, in order, with and without accents.
pub open spec fn day_name(k: int) -> Seq<char> {
    if k == 0 {
        "lunes"@
    } else if k == 1 {
        "martes"@
    } else if k == 2 {
        "miercoles"@
    } else if k == 3 {
        "miércoles"@
    } else if k == 4 {
        "jueves"@
    } else if k == 5 {
        "viernes"@
    } else if k == 6 {
        "sabado"@
    } else if k == 7 {
        "sábado"@
    } else {
        "domingo"@
    }
}

/// The weekday (Monday 0) of the `k`-th name.
pub open spec fn day_name_weekday(k: int) -> u32 {
    if k <= 1 {
        k as u32
    } else if k <= 3 {
        2
    } else if k <= 5 {
        (k - 1) as u32
    } else if k <= 7 {
        5
    } else {
        6
    }
}

pub const DAY_NAMES: usize = 9;

/// The first weekday name, from the `k`-th on, that occurs in `t`.
pub open spec fn first_day_name(t: Seq<char>, k: int) -> Option<int>
    decreases 9 - k,
{
    if k >= 9 || k < 0 {
        None
    } else if has_substring(t, day_name(k)) {
        Some(k)
    } else {
        first_day_name(t, k + 1)
    }
}

pub open spec fn weekday_reading(t: Seq<char>) -> Option<ReadingView> {
    match first_day_name(t, 0) {
        Some(k) => reading_of(
            DuePlan::NextWeekday { weekday: day_name_weekday(k), second: time_or_nine(t) },
            80,
            Some(day_name(k)),
        ),
        None => None,
    }
}

pub open spec fn week_reading(t: Seq<char>) -> Option<ReadingView> {
    if has_substring(t, "una semana"@) || has_substring(t, "1 semana"@) || has_substring(
        t,
        "en una semana"@,
    ) {
        reading_of(DuePlan::After { amount: 1, unit: TimeUnit::Weeks }, 90, Some("una semana"@))
    } else {
        match search_spec(DAY_COUNT@, t) {
            SearchView::Found(g) => match parse_i64_spec(group_text(g, 1)) {
                Some(n) => reading_of(
                    DuePlan::After { amount: n as i64, unit: TimeUnit::Days },
                    85,
                    Some(group_text(g, 0)),
                ),
                None => None,
            },
            _ => None,
        }
    }
}

/// "HH:MM" of a second of the day (`NaiveTime::format("%H:%M")`).
pub open spec fn hour_minute_text(s: int) -> Seq<char> {
    two_digit_text(s / 3600) + ":"@ + two_digit_text((s % 3600) / 60)
}

pub open spec fn time_only_reading(t: Seq<char>) -> Option<ReadingView> {
    match time_in_spec(t) {
        Some(s) => reading_of(
            DuePlan::NextOccurrence { second: s },
            60,
            Some("a las "@ + hour_minute_text(s as int)),
        ),
        None => None,
    }
}

/// The unit a repetition's word names: minutes, hours, days or weeks.
pub open spec fn unit_word(w: Seq<char>) -> TimeUnit {
    if w.len() > 0 && w[0] == 'm' {
        TimeUnit::Minutes
    } else if w.len() > 0 && w[0] == 'h' {
        TimeUnit::Hours
    } else if w.len() > 0 && w[0] == 'd' {
        TimeUnit::Days
    } else {
        TimeUnit::Weeks
    }
}

/// A repetition named in a (lower-case) text: "cada [N] unidad", N being 1
/// when not given; its count (at least 1), unit and matched words.
pub open spec fn repetition_spec(t: Seq<char>) -> Option<(i64, TimeUnit, Seq<char>)> {
    match search_spec(REPETITION@, t) {
        SearchView::Found(g) => {
            let unit = unit_word(group_text(g, 2));
            if group_text(g, 1).len() == 0 {
                Some((1i64, unit, group_text(g, 0)))
            } else {
                match parse_i64_spec(group_text(g, 1)) {
                    Some(n) => if n >= 1 {
                        Some((n as i64, unit, group_text(g, 0)))
                    } else {
                        None
                    },
                    None => None,
                }
            }
        },
        _ => None,
    }
}

/// A repeating reminder is first due one interval from now, or, for days and
/// weeks with a time of day, at the next time the clock shows that time.
pub open spec fn repetition_reading(t: Seq<char>) -> Option<ReadingView> {
    match repetition_spec(t) {
        Some((n, unit, e)) => {
            let plan = if (unit == TimeUnit::Days || unit == TimeUnit::Weeks) && time_in_spec(
                t,
            ) is Some {
                DuePlan::NextOccurrence { second: time_in_spec(t)->0 }
            } else {
                DuePlan::After { amount: n, unit }
            };
            reading_of(plan, 90, Some(e))
        },
        None => None,
    }
}

/// The interval, in seconds, at which a (lower-case) text asks to repeat;
/// `None` where it asks for no repetition or the interval does not fit in
/// `i64`.
pub open spec fn repeat_interval_spec(t: Seq<char>) -> Option<i64> {
    match repetition_spec(t) {
        Some((n, unit, _)) => if n * unit_seconds(unit) <= i64::MAX {
            Some((n * unit_seconds(unit)) as i64)
        } else {
            None
        },
        None => None,
    }
}

/// The reading of a lower-case text: the first of the readings that applies,
/// in a fixed order, else "in one hour" with low confidence and no expression.
pub open spec fn reading_spec(t: Seq<char>) -> ReadingView {
    if let Some(r) = repetition_reading(t) {
        r
    } else if let Some(r) = minutes_reading(t) {
        r
    } else if let Some(r) = hours_reading(t) {
        r
    } else if let Some(r) = tomorrow_reading(t) {
        r
    } else if let Some(r) = today_reading(t) {
        r
    } else if let Some(r) = weekday_reading(t) {
        r
    } else if let Some(r) = week_reading(t) {
        r
    } else if let Some(r) = time_only_reading(t) {
        r
    } else {
        ReadingView {
            due: DuePlan::After { amount: 1, unit: TimeUnit::Hours },
            confidence_percent: 20,
            expression: None,
        }
    }
}

fn unit_word_exec(w: &Vec<char>) -> (u: TimeUnit)
    ensures
        u == unit_word(w@),
{
    if w.len() > 0 && w[0] == 'm' {
        TimeUnit::Minutes
    } else if w.len() > 0 && w[0] == 'h' {
        TimeUnit::Hours
    } else if w.len() > 0 && w[0] == 'd' {
        TimeUnit::Days
    } else {
        TimeUnit::Weeks
    }
}

fn repetition(t: &str) -> (r: Option<(i64, TimeUnit, Vec<char>)>)
    ensures
        match r {
            Some((n, u, e)) => repetition_spec(t@) == Some((n, u, e@)),
            None => repetition_spec(t@) is None,
        },
{
    match search(REPETITION, t) {
        Search::Found(g) => {
            let word = group_chars(&g, 2);
            let unit = unit_word_exec(&word);
            let digits = group_chars(&g, 1);
            let e = group_chars(&g, 0);
            if digits.len() == 0 {
                Some((1, unit, e))
            } else {
                match parse_i64(&digits) {
                    Some(n) => if n >= 1 {
                        Some((n, unit, e))
                    } else {
                        None
                    },
                    None => None,
                }
            }
        },
        _ => None,
    }
}

fn try_parse_repetition(t: &str) -> (r: Option<Reading>)
    ensures
        opt_reading_view(r) == repetition_reading(t@),
{
    match repetition(t) {
        Some((n, unit, e)) => {
            let time = extract_time_from_text(t);
            let due = match (unit, time) {
                (TimeUnit::Days, Some(s)) => DuePlan::NextOccurrence { second: s },
                (TimeUnit::Weeks, Some(s)) => DuePlan::NextOccurrence { second: s },
                _ => DuePlan::After { amount: n, unit },
            };
            Some(Reading { due, confidence_percent: 90, expression: Some(e) })
        },
        None => None,
    }
}

/// The interval at which a (lower-case) text asks a reminder to repeat.
pub fn repeat_interval(t: &str) -> (r: Option<i64>)
    ensures
        r == repeat_interval_spec(t@),
{
    match repetition(t) {
        Some((n, unit, _)) => {
            let per = unit_seconds_exec(unit);
            n.checked_mul(per)
        },
        None => None,
    }
}

fn try_parse_relative_minutes(t: &str) -> (r: Option<Reading>)
    ensures
        opt_reading_view(r) == minutes_reading(t@),
{
    match search(RELATIVE_MINUTES, t) {
        Search::Invalid => None,
        Search::Found(g) => {
            let digits = group_chars(&g, 1);
            match parse_i64(&digits) {
                Some(n) => {
                    let e = group_chars(&g, 0);
                    Some(
                        Reading {
                            due: DuePlan::After { amount: n, unit: TimeUnit::Minutes },
                            confidence_percent: 95,
                            expression: Some(e),
                        },
                    )
                },
                None => None,
            }
        },
        Search::NoMatch => match search(RELATIVE_ONE_UNIT, t) {
            Search::Found(g) => {
                let e = group_chars(&g, 0);
                let unit = if contains_str(&e, "hora") {
                    TimeUnit::Hours
                } else {
                    TimeUnit::Minutes
                };
                Some(
                    Reading {
                        due: DuePlan::After { amount: 1, unit },
                        confidence_percent: 90,
                        expression: Some(e),
                    },
                )
            },
            _ => None,
        },
    }
}

fn try_parse_relative_hours(t: &str) -> (r: Option<Reading>)
    ensures
        opt_reading_view(r) == hours_reading(t@),
{
    match search(RELATIVE_HOURS, t) {
        Search::Found(g) => {
            let digits = group_chars(&g, 1);
            match parse_i64(&digits) {
                Some(n) => {
                    let e = group_chars(&g, 0);
                    Some(
                        Reading {
                            due: DuePlan::After { amount: n, unit: TimeUnit::Hours },
                            confidence_percent: 95,
                            expression: Some(e),
                        },
                    )
                },
                None => None,
            }
        },
        _ => None,
    }
}

fn time_or_nine_exec(t: &str) -> (s: u32)
    ensures
        s == time_or_nine(t@),
{
    match extract_time_from_text(t) {
        Some(s) => s,
        None => NINE_AM,
    }
}

fn try_parse_tomorrow(t: &str, tv: &Vec<char>) -> (r: Option<Reading>)
    requires
        tv@ == t@,
    ensures
        opt_reading_view(r) == tomorrow_reading(t@),
{
    let rest = removed_str(tv, "de la mañana");
    if contains_str(&rest, "mañana") {
        let s = time_or_nine_exec(t);
        Some(
            Reading {
                due: DuePlan::Tomorrow { second: s },
                confidence_percent: 85,
                expression: Some(chars_of("mañana")),
            },
        )
    } else {
        None
    }
}

fn try_parse_today(t: &str, tv: &Vec<char>) -> (r: Option<Reading>)
    requires
        tv@ == t@,
    ensures
        opt_reading_view(r) == today_reading(t@),
{
    if contains_str(tv, "hoy") {
        match extract_time_from_text(t) {
            Some(s) => Some(
                Reading {
                    due: DuePlan::Today { second: s },
                    confidence_percent: 85,
                    expression: Some(chars_of("hoy")),
                },
            ),
            None => None,
        }
    } else {
        None
    }
}

fn day_name_at(k: usize) -> (r: (&'static str, u32))
    requires
        k < 9,
    ensures
        r.0@ == day_name(k as int),
        r.1 == day_name_weekday(k as int),
{
    if k == 0 {
        ("lunes", 0)
    } else if k == 1 {
        ("martes", 1)
    } else if k == 2 {
        ("miercoles", 2)
    } else if k == 3 {
        ("miércoles", 2)
    } else if k == 4 {
        ("jueves", 3)
    } else if k == 5 {
        ("viernes", 4)
    } else if k == 6 {
        ("sabado", 5)
    } else if k == 7 {
        ("sábado", 5)
    } else {
        ("domingo", 6)
    }
}

proof fn lemma_first_day_name_skip(t: Seq<char>, k: int)
    requires
        0 <= k < 9,
        !has_substring(t, day_name(k)),
    ensures
        first_day_name(t, k) == first_day_name(t, k + 1),
{
}

fn try_parse_weekday(t: &str, tv: &Vec<char>) -> (r: Option<Reading>)
    requires
        tv@ == t@,
    ensures
        opt_reading_view(r) == weekday_reading(t@),
{
    let mut k: usize = 0;
    while k < DAY_NAMES
        invariant
            tv@ == t@,
            k <= 9,
            first_day_name(t@, 0) == first_day_name(t@, k as int),
        decreases 9 - k,
    {
        let (name, wd) = day_name_at(k);
        if contains_str(tv, name) {
            let s = time_or_nine_exec(t);
            return Some(
                Reading {
                    due: DuePlan::NextWeekday { weekday: wd, second: s },
                    confidence_percent: 80,
                    expression: Some(chars_of(name)),
                },
            );
        }
        proof {
            lemma_first_day_name_skip(t@, k as int);
        }
        k = k + 1;
    }
    None
}

fn try_parse_relative_week(t: &str, tv: &Vec<char>) -> (r: Option<Reading>)
    requires
        tv@ == t@,
    ensures
        opt_reading_view(r) == week_reading(t@),
{
    if contains_str(tv, "una semana") || contains_str(tv, "1 semana") || contains_str(
        tv,
        "en una semana",
    ) {
        return Some(
            Reading {
                due: DuePlan::After { amount: 1, unit: TimeUnit::Weeks },
                confidence_percent: 90,
                expression: Some(chars_of("una semana")),
            },
        );
    }
    match search(DAY_COUNT, t) {
        Search::Found(g) => {
            let digits = group_chars(&g, 1);
            match parse_i64(&digits) {
                Some(n) => {
                    let e = group_chars(&g, 0);
                    Some(
                        Reading {
                            due: DuePlan::After { amount: n, unit: TimeUnit::Days },
                            confidence_percent: 85,
                            expression: Some(e),
                        },
                    )
                },
                None => None,
            }
        },
        _ => None,
    }
}

fn try_parse_time_only(t: &str) -> (r: Option<Reading>)
    ensures
        opt_reading_view(r) == time_only_reading(t@),
{
    match extract_time_from_text(t) {
        Some(s) => {
            proof {
                lemma_time_in_is_minute_of_day(t@);
            }
            let mut e: Vec<char> = Vec::new();
            push_str(&mut e, "a las ");
            push_two_digits(&mut e, s / 3600);
            push_str(&mut e, ":");
            push_two_digits(&mut e, (s % 3600) / 60);
            assert(e@ =~= "a las "@ + hour_minute_text(s as int));
            Some(
                Reading {
                    due: DuePlan::NextOccurrence { second: s },
                    confidence_percent: 60,
                    expression: Some(e),
                },
            )
        },
        None => None,
    }
}

/// The reading of a lower-case text.
pub fn read_lowercase(t: &str) -> (r: Reading)
    ensures
        r.view() == reading_spec(t@),
{
    let tv = chars_of(t);
    if let Some(r) = try_parse_repetition(t) {
        return r;
    }
    if let Some(r) = try_parse_relative_minutes(t) {
        return r;
    }
    if let Some(r) = try_parse_relative_hours(t) {
        return r;
    }
    if let Some(r) = try_parse_tomorrow(t, &tv) {
        return r;
    }
    if let Some(r) = try_parse_today(t, &tv) {
        return r;
    }
    if let Some(r) = try_parse_weekday(t, &tv) {
        return r;
    }
    if let Some(r) = try_parse_relative_week(t, &tv) {
        return r;
    }
    if let Some(r) = try_parse_time_only(t) {
        return r;
    }
    Reading {
        due: DuePlan::After { amount: 1, unit: TimeUnit::Hours },
        confidence_percent: 20,
        expression: None,
    }
}


// ---------------------------------------------------------------------------
// Placing a plan on the calendar
// ---------------------------------------------------------------------------

/// A plan the calendar stage accepts: times are seconds of a day and weekdays
/// are below 7.  Every reading's plan is one (`lemma_reading_well_formed`).
pub open spec fn plan_ok(p: DuePlan) -> bool {
    match p {
        DuePlan::After { .. } => true,
        DuePlan::Tomorrow { second } => second < 86400,
        DuePlan::Today { second } => second < 86400,
        DuePlan::NextWeekday { weekday, second } => weekday < 7 && second < 86400,
        DuePlan::NextOccurrence { second } => second < 86400,
    }
}

/// A valid wall-clock reading far enough from the end of `chrono`'s calendar
/// for the plan to be placed after it: a span or a time today needs no room,
/// a time tomorrow (or at the next occurrence) a day, a weekday a week.
pub open spec fn room_for(p: DuePlan, now: LocalDateTime) -> bool {
    &&& now.valid()
    &&& match p {
        DuePlan::After { .. } => true,
        DuePlan::Today { .. } => true,
        DuePlan::Tomorrow { .. } => now.day + 1 <= LAST_DAY,
        DuePlan::NextOccurrence { .. } => now.day + 1 <= LAST_DAY,
        DuePlan::NextWeekday { .. } => now.day + 7 <= LAST_DAY,
    }
}

fn room_for_exec(p: DuePlan, now: LocalDateTime) -> (b: bool)
    requires
        now.valid(),
    ensures
        b == room_for(p, now),
{
    match p {
        DuePlan::After { .. } => true,
        DuePlan::Today { .. } => true,
        DuePlan::Tomorrow { .. } => now.day < LAST_DAY,
        DuePlan::NextOccurrence { .. } => now.day < LAST_DAY,
        DuePlan::NextWeekday { .. } => now.day <= LAST_DAY - 7,
    }
}

/// The moment a plan names: either a span of seconds after the current
/// instant, or a local wall-clock time.
#[derive(Clone, Copy, Debug, PartialEq, Eq, Structural)]
pub enum Due {
    After { seconds: i64 },
    At { at: LocalDateTime },
}

/// The first day after `day` whose weekday is `wd`.
pub open spec fn next_weekday_day(day: int, wd: int) -> int {
    day + (wd - weekday(day) + 6) % 7 + 1
}

/// Where a plan falls, seen from the wall clock `now`; `None` where the span
/// does not fit in `i64` seconds.
pub open spec fn due_spec(p: DuePlan, now: LocalDateTime) -> Option<Due> {
    match p {
        DuePlan::After { amount, unit } => {
            let s = amount * unit_seconds(unit);
            if i64::MIN <= s <= i64::MAX {
                Some(Due::After { seconds: s as i64 })
            } else {
                None
            }
        },
        DuePlan::Tomorrow { second } => Some(
            Due::At { at: LocalDateTime { day: (now.day + 1) as i32, second } },
        ),
        DuePlan::Today { second } => Some(Due::At { at: LocalDateTime { day: now.day, second } }),
        DuePlan::NextWeekday { weekday, second } => Some(
            Due::At {
                at: LocalDateTime {
                    day: next_weekday_day(now.day as int, weekday as int) as i32,
                    second,
                },
            },
        ),
        DuePlan::NextOccurrence { second } => if second <= now.second {
            Some(Due::At { at: LocalDateTime { day: (now.day + 1) as i32, second } })
        } else {
            Some(Due::At { at: LocalDateTime { day: now.day, second } })
        },
    }
}

fn unit_seconds_exec(u: TimeUnit) -> (r: i64)
    ensures
        r == unit_seconds(u),
{
    match u {
        TimeUnit::Minutes => 60,
        TimeUnit::Hours => 3600,
        TimeUnit::Days => 86400,
        TimeUnit::Weeks => 604800,
    }
}

proof fn lemma_weekday_step(d: int)
    ensures
        weekday(d + 1) == (weekday(d) + 1) % 7,
        0 <= weekday(d) < 7,
{
}

/// The first day from `from` on whose weekday is `wd`, found by stepping one
/// day at a time.
fn first_day_with_weekday(from: i32, wd: u32) -> (d: i32)
    requires
        FIRST_DAY <= from,
        from + 6 <= LAST_DAY,
        wd < 7,
    ensures
        d == from + (wd - weekday(from as int) + 7) % 7,
{
    let ghost k0: int = (wd - weekday(from as int) + 7) % 7;
    let mut target = from;
    proof {
        lemma_weekday_step(from as int);
    }
    while weekday_index(target) != wd
        invariant
            FIRST_DAY <= from,
            from + 6 <= LAST_DAY,
            wd < 7,
            0 <= k0 < 7,
            k0 == (wd - weekday(from as int) + 7) % 7,
            from <= target <= from + k0,
            weekday(target as int) == (weekday(from as int) + (target - from)) % 7,
        decreases from + k0 - target,
    {
        proof {
            lemma_weekday_step(target as int);
            if target == from + k0 {
                assert(weekday(target as int) == wd);
            }
        }
        target = target + 1;
    }
    proof {
        let w = weekday(from as int);
        assert(0 <= w < 7);
        assert((w + (target - from)) % 7 == wd);
    }
    target
}

/// `try_parse_weekday`'s search: the first day strictly after `today` with
/// weekday `wd`.
fn next_day_with_weekday(today: i32, wd: u32) -> (d: i32)
    requires
        FIRST_DAY <= today,
        today + 7 <= LAST_DAY,
        wd < 7,
    ensures
        d == next_weekday_day(today as int, wd as int),
{
    let mut target = first_day_with_weekday(today, wd);
    if target <= today {
        target = first_day_with_weekday(today + 1, wd);
        proof {
            lemma_weekday_step(today as int);
        }
    }
    target
}

/// Places a plan relative to the wall clock `now`.
pub fn due_of(p: DuePlan, now: LocalDateTime) -> (r: Option<Due>)
    requires
        plan_ok(p),
        room_for(p, now),
    ensures
        r == due_spec(p, now),
        r matches Some(Due::At { at }) ==> at.valid() && now.day <= at.day <= now.day + 7,
{
    match p {
        DuePlan::After { amount, unit } => {
            let u = unit_seconds_exec(unit);
            match amount.checked_mul(u) {
                Some(s) => Some(Due::After { seconds: s }),
                None => None,
            }
        },
        DuePlan::Tomorrow { second } => Some(
            Due::At { at: LocalDateTime { day: now.day + 1, second } },
        ),
        DuePlan::Today { second } => Some(Due::At { at: LocalDateTime { day: now.day, second } }),
        DuePlan::NextWeekday { weekday, second } => {
            let d = next_day_with_weekday(now.day, weekday);
            Some(Due::At { at: LocalDateTime { day: d, second } })
        },
        DuePlan::NextOccurrence { second } => {
            if second <= now.second {
                Some(Due::At { at: LocalDateTime { day: now.day + 1, second } })
            } else {
                Some(Due::At { at: LocalDateTime { day: now.day, second } })
            }
        },
    }
}


// ---------------------------------------------------------------------------
// Titles and whole phrases
// ---------------------------------------------------------------------------

/// The phrase without the words that only ask for a reminder ("recuérdame",
/// "recordar", "que", in either case), trimmed.
pub open spec fn cleaned_spec(text: Seq<char>) -> Seq<char> {
    trim(
        remove_all(
            remove_all(
                remove_all(
                    remove_all(
                        remove_all(remove_all(trim(text), "RECUÉRDAME"@), "recuérdame"@),
                        "RECORDAR"@,
                    ),
                    "recordar"@,
                ),
                "QUE"@,
            ),
            "que"@,
        ),
    )
}

/// What `extract_title` makes of a phrase and the expression that named its
/// moment: the phrase without the expression and without "a las", trimmed; or
/// the phrase itself when no expression was found; `DEFAULT_TITLE` if that
/// leaves nothing.
pub open spec fn title_spec(text: Seq<char>, expression: Option<Seq<char>>) -> Seq<char> {
    let t = match expression {
        Some(e) => trim(remove_all(remove_all(text, e), "a las"@)),
        None => text,
    };
    if t.len() == 0 {
        DEFAULT_TITLE@
    } else {
        t
    }
}

/// The reading of a whole phrase: of its cleaned text, lower-cased.
pub open spec fn phrase_reading(text: Seq<char>) -> ReadingView {
    reading_spec(lowercased(cleaned_spec(text)))
}

/// The interval at which a whole phrase asks its reminder to repeat.
pub open spec fn phrase_repeat(text: Seq<char>) -> Option<i64> {
    repeat_interval_spec(lowercased(cleaned_spec(text)))
}

/// The title of a whole phrase.
pub open spec fn phrase_title(text: Seq<char>) -> Seq<char> {
    trim(title_spec(cleaned_spec(text), phrase_reading(text).expression))
}

/// The title left of `text` once `expression` is taken out.
pub fn extract_title(text: &str, expression: &Option<String>) -> (r: String)
    ensures
        r@ == title_spec(text@, opt_string_view(*expression)),
{
    let tv = chars_of(text);
    let t = match expression {
        Some(e) => {
            let without = removed_str(&tv, e.as_str());
            let without = removed_str(&without, "a las");
            trimmed(&without)
        },
        None => tv,
    };
    if t.len() == 0 {
        proof {
            reveal_strlit("Recordatorio");
        }
        crate::text::owned(DEFAULT_TITLE)
    } else {
        string_of(&t)
    }
}

fn cleaned(text: &str) -> (r: Vec<char>)
    ensures
        r@ == cleaned_spec(text@),
{
    let tv = chars_of(text);
    let t = trimmed(&tv);
    let t = removed_str(&t, "RECUÉRDAME");
    let t = removed_str(&t, "recuérdame");
    let t = removed_str(&t, "RECORDAR");
    let t = removed_str(&t, "recordar");
    let t = removed_str(&t, "QUE");
    let t = removed_str(&t, "que");
    trimmed(&t)
}

/// When a phrase's moment falls, how sure the reading is, and the
/// expression that named it.
pub struct ParsedDateTime {
    pub due: Due,
    pub confidence_percent: u32,
    pub expression: Option<String>,
}

fn string_of_opt(v: &Option<Vec<char>>) -> (r: Option<String>)
    ensures
        opt_string_view(r) == opt_chars_view(*v),
{
    match v {
        Some(c) => Some(string_of(c)),
        None => None,
    }
}

/// `parse_datetime`: reads the (already cleaned) phrase `text`, lower-cased,
/// and places its moment relative to the wall clock `now`.  `None` where the
/// span it names does not fit in `i64` seconds, or where the calendar ends
/// before the day it names.
pub fn parse_datetime(text: &str, now: LocalDateTime) -> (r: Option<ParsedDateTime>)
    requires
        now.valid(),
    ensures
        ({
            let rd = reading_spec(lowercased(text@));
            match r {
                Some(p) => room_for(rd.due, now) && due_spec(rd.due, now) == Some(p.due)
                    && p.confidence_percent == rd.confidence_percent && opt_string_view(
                    p.expression,
                ) == rd.expression,
                None => !room_for(rd.due, now) || due_spec(rd.due, now) is None,
            }
        }),
{
    let lower = lowercase(text);
    let reading = read_lowercase(lower.as_str());
    proof {
        lemma_reading_well_formed(lower@);
    }
    if !room_for_exec(reading.due, now) {
        return None;
    }
    match due_of(reading.due, now) {
        Some(due) => Some(
            ParsedDateTime {
                due,
                confidence_percent: reading.confidence_percent,
                expression: string_of_opt(&reading.expression),
            },
        ),
        None => None,
    }
}

/// What `parse_reminder_text` reads from a phrase.  The confidence is given in
/// percent.
pub struct ParsedReminder {
    pub title: String,
    pub original_text: String,
    pub due_at: String,
    pub confidence_percent: u32,
    pub parsed_time_expression: Option<String>,
    /// The interval, in seconds, at which the phrase asks to repeat.
    pub repeat_interval_seconds: Option<i64>,
}

/// `s` renders the moment `due`: a wall-clock time is rendered as itself; a
/// span after the clock's instant lands on a local wall clock within a day
/// of the UTC wall clock of the clock's instant plus the span (the time zone
/// decides which).
pub open spec fn renders_due(clock: Clock, due: Due, s: Seq<char>) -> bool {
    match due {
        Due::At { at } => at.valid() && renders(s, at.day as int, at.second as int),
        Due::After { seconds } => renders_near(s, clock.utc_seconds + seconds),
    }
}

/// A rendered moment is text of the rendering's shape.
pub proof fn lemma_rendered_due_is_timestamp(clock: Clock, due: Due, s: Seq<char>)
    requires
        renders_due(clock, due, s),
    ensures
        is_timestamp_text(s),
{
    if let Due::At { at } = due {
        assert(renders(s, at.day as int, at.second as int));
    }
}

/// A plan whose span does not fit in `i64` seconds: it cannot be placed,
/// wherever the clock stands.
pub open spec fn span_overflows(p: DuePlan) -> bool {
    match p {
        DuePlan::After { amount, unit } => !(i64::MIN <= amount * unit_seconds(unit) <= i64::MAX),
        _ => false,
    }
}

/// Renders a due moment as local time text: a span after the clock's instant,
/// or a wall-clock time in the machine's time zone.  `None` where the time
/// zone or `chrono`'s range has no such moment; a span whose sum stays in
/// `chrono`'s range is always rendered.
pub fn render_due(clock: &Clock, due: Due) -> (r: Option<String>)
    requires
        clock.utc_nanos < 1_000_000_000,
    ensures
        r matches Some(s) ==> renders_due(*clock, due, s@),
        due matches Due::After { seconds } && after_in_range(*clock, seconds) ==> r is Some,
{
    match due {
        Due::After { seconds } => local_text_after(clock, seconds),
        Due::At { at } => local_text_at(at),
    }
}

/// Interprets a phrase against a given clock reading: title, trimmed phrase,
/// confidence and expression follow from the text alone; the due time is the
/// phrase's moment placed after `clock` and rendered in the machine's time
/// zone.  `None` where the moment cannot be placed or rendered (where the
/// arithmetic or the time zone has no answer); a span after the clock's
/// instant that stays in `chrono`'s range is always placed and rendered.
pub fn parse_reminder_text_at(text: &str, clock: &Clock) -> (r: Option<ParsedReminder>)
    requires
        clock.local.valid(),
        clock.utc_nanos < 1_000_000_000,
    ensures
        r matches Some(p) ==> {
            &&& p.title@ == phrase_title(text@)
            &&& p.original_text@ == trim(text@)
            &&& p.confidence_percent == phrase_reading(text@).confidence_percent
            &&& opt_string_view(p.parsed_time_expression) == phrase_reading(text@).expression
            &&& p.repeat_interval_seconds == phrase_repeat(text@)
            &&& room_for(phrase_reading(text@).due, clock.local)
            &&& due_spec(phrase_reading(text@).due, clock.local) is Some
            &&& renders_due(*clock, due_spec(phrase_reading(text@).due, clock.local)->0, p.due_at@)
        },
        !room_for(phrase_reading(text@).due, clock.local) ==> r is None,
        due_spec(phrase_reading(text@).due, clock.local) is None ==> r is None,
        room_for(phrase_reading(text@).due, clock.local) ==> (due_spec(phrase_reading(text@).due, clock.local) matches Some(
            Due::After { seconds },
        ) && after_in_range(*clock, seconds) ==> r is Some),
{
    let tv = chars_of(text);
    let original = trimmed(&tv);
    let c = cleaned(text);
    let cs = string_of(&c);
    let parsed = match parse_datetime(cs.as_str(), clock.local) {
        Some(p) => p,
        None => {
            return None;
        },
    };
    let lower = lowercase(cs.as_str());
    let repeat = repeat_interval(lower.as_str());
    let title = extract_title(cs.as_str(), &parsed.expression);
    let tc = chars_of(title.as_str());
    let title = string_of(&trimmed(&tc));
    let due_at = match render_due(clock, parsed.due) {
        Some(s) => s,
        None => {
            return None;
        },
    };
    Some(
        ParsedReminder {
            title,
            original_text: string_of(&original),
            due_at,
            confidence_percent: parsed.confidence_percent,
            parsed_time_expression: parsed.expression,
            repeat_interval_seconds: repeat,
        },
    )
}

/// `parse_reminder_text`: interprets a phrase against the current time.
pub fn parse_reminder_text(text: &str) -> (r: Option<ParsedReminder>)
    ensures
        r matches Some(p) ==> {
            &&& p.title@ == phrase_title(text@)
            &&& p.original_text@ == trim(text@)
            &&& p.confidence_percent == phrase_reading(text@).confidence_percent
            &&& opt_string_view(p.parsed_time_expression) == phrase_reading(text@).expression
            &&& p.repeat_interval_seconds == phrase_repeat(text@)
            &&& is_timestamp_text(p.due_at@)
        },
        span_overflows(phrase_reading(text@).due) ==> r is None,
{
    let clock = read_clock();
    if clock.local.day < FIRST_DAY || clock.local.day > LAST_DAY {
        return None;
    }
    let r = parse_reminder_text_at(text, &clock);
    proof {
        if r is Some {
            lemma_rendered_due_is_timestamp(
                clock,
                due_spec(phrase_reading(text@).due, clock.local)->0,
                r->0.due_at@,
            );
        }
    }
    r
}

// ---------------------------------------------------------------------------
// Laws
// ---------------------------------------------------------------------------

/// Every reading has a plan the calendar stage accepts, a confidence of 95,
/// 90, 85, 80, 60 or 20 percent, and an expression exactly when its
/// confidence is not the fallback's 20.
pub proof fn lemma_reading_well_formed(t: Seq<char>)
    ensures
        plan_ok(reading_spec(t).due),
        ({
            let c = reading_spec(t).confidence_percent;
            c == 95 || c == 90 || c == 85 || c == 80 || c == 60 || c == 20
        }),
        reading_spec(t).expression is None <==> reading_spec(t).confidence_percent == 20,
{
    lemma_time_in_is_minute_of_day(t);
    lemma_first_day_name_range(t, 0);
}

proof fn lemma_first_day_name_range(t: Seq<char>, k: int)
    requires
        0 <= k,
    ensures
        first_day_name(t, k) matches Some(j) ==> k <= j < 9,
    decreases 9 - k,
{
    if k < 9 && !has_substring(t, day_name(k)) {
        lemma_first_day_name_range(t, k + 1);
    }
}

/// A reminder's title is never empty and never starts or ends with whitespace.
pub proof fn lemma_title_never_empty(text: Seq<char>)
    ensures
        phrase_title(text).len() > 0,
        is_trimmed(phrase_title(text)),
{
    reveal_strlit("Recordatorio");
    let c = cleaned_spec(text);
    let t = title_spec(c, phrase_reading(text).expression);
    lemma_trim_is_trimmed(
        remove_all(
            remove_all(
                remove_all(
                    remove_all(
                        remove_all(remove_all(trim(text), "RECUÉRDAME"@), "recuérdame"@),
                        "RECORDAR"@,
                    ),
                    "recordar"@,
                ),
                "QUE"@,
            ),
            "que"@,
        ),
    );
    match phrase_reading(text).expression {
        Some(e) => {
            lemma_trim_is_trimmed(remove_all(remove_all(c, e), "a las"@));
        },
        None => {},
    }
    assert(is_trimmed(t));
    assert(t.len() > 0);
    crate::text::lemma_trim_of_trimmed(t);
}

/// Whether `n` is a Spanish name of the weekday `w` (Monday 0), written with
/// or without its accent.
pub open spec fn is_name_of_weekday(n: Seq<char>, w: int) -> bool {
    ||| w == 0 && n == "lunes"@
    ||| w == 1 && n == "martes"@
    ||| w == 2 && (n == "miércoles"@ || n == "miercoles"@)
    ||| w == 3 && n == "jueves"@
    ||| w == 4 && n == "viernes"@
    ||| w == 5 && (n == "sábado"@ || n == "sabado"@)
    ||| w == 6 && n == "domingo"@
}

/// Each weekday name the parser looks for stands for the weekday it names.
pub proof fn lemma_day_names_name_their_weekday(k: int)
    requires
        0 <= k < 9,
    ensures
        is_name_of_weekday(day_name(k), day_name_weekday(k) as int),
{
}

/// A phrase read as a weekday is placed one to seven days ahead, on a day
/// whose weekday is the one the phrase names, at the time the phrase gives
/// (nine in the morning when it gives none).
pub proof fn lemma_weekday_phrase_lands_on_named_day(t: Seq<char>, now: LocalDateTime)
    requires
        weekday_reading(t) is Some,
        room_for(weekday_reading(t)->0.due, now),
    ensures
        ({
            let r = weekday_reading(t)->0;
            &&& r.expression is Some
            &&& due_spec(r.due, now) matches Some(Due::At { at }) && is_name_of_weekday(
                r.expression->0,
                weekday(at.day as int),
            ) && now.day < at.day <= now.day + 7 && at.second == time_or_nine(t)
        }),
{
    let k = first_day_name(t, 0)->0;
    lemma_first_day_name_range(t, 0);
    lemma_day_names_name_their_weekday(k);
    assert(day_name_weekday(k) < 7);
    lemma_next_weekday(now.day as int, day_name_weekday(k) as int);
}

/// A title leaves out the expression that named the moment: a phrase made of
/// some words followed by the expression (which occurs nowhere earlier), and
/// with no "a las" in those words, has those words, trimmed, as its title
/// (or the default title where nothing is left).
pub proof fn lemma_title_drops_trailing_expression(words: Seq<char>, e: Seq<char>)
    requires
        e.len() > 0,
        forall|i: int| 0 <= i < words.len() ==> !occurs_at(words + e, e, i),
        !has_substring(words, "a las"@),
    ensures
        title_spec(words + e, Some(e)) == if trim(words).len() == 0 {
            DEFAULT_TITLE@
        } else {
            trim(words)
        },
{
    reveal_strlit("a las");
    lemma_remove_trailing(words, e);
    lemma_remove_absent(words, "a las"@);
}

/// The length of time the word of a repetition names: minutes, hours, days
/// and weeks by their Spanish words.
pub proof fn lemma_repetition_unit_words(w: Seq<char>)
    ensures
        w.len() >= 3 && w.subrange(0, 3) == "min"@ ==> unit_seconds(unit_word(w)) == 60,
        w.len() >= 1 && w[0] == 'h' ==> unit_seconds(unit_word(w)) == 3600,
        w.len() >= 1 && w[0] == 'd' ==> unit_seconds(unit_word(w)) == 86400,
        w.len() >= 6 && w.subrange(0, 6) == "semana"@ ==> unit_seconds(unit_word(w)) == 604800,
{
    reveal_strlit("min");
    reveal_strlit("semana");
    if w.len() >= 3 && w.subrange(0, 3) == "min"@ {
        assert(w[0] == w.subrange(0, 3)[0]);
    }
    if w.len() >= 6 && w.subrange(0, 6) == "semana"@ {
        assert(w[0] == w.subrange(0, 6)[0]);
    }
}

/// The interval of "cada [N] unidad" is N (1 when not given) times the
/// length of the unit its word names.
pub proof fn lemma_repeat_interval_is_count_times_unit(t: Seq<char>)
    requires
        search_spec(REPETITION@, t) is Found,
    ensures
        ({
            let g = search_spec(REPETITION@, t)->Found_0;
            let w = group_text(g, 2);
            let n: int = if group_text(g, 1).len() == 0 {
                1
            } else {
                match parse_i64_spec(group_text(g, 1)) {
                    Some(n) => n as int,
                    None => 0,
                }
            };
            1 <= n && n * unit_seconds(unit_word(w)) <= i64::MAX ==> repeat_interval_spec(t)
                == Some((n * unit_seconds(unit_word(w))) as i64)
        }),
{
}

/// The time read from "a las H[:MM] …": its minute is MM (0 when not given,
/// at most 59) whatever the period; its hour is H moved by twelve for an
/// afternoon or evening hour ("de la tarde", "de la noche", "pm") before
/// 12, midnight for a plain 12, and H (at most 23) otherwise.
pub proof fn lemma_time_of_day_fields(g: Seq<Option<Seq<char>>>)
    ensures
        time_of_day_spec(g) matches Some(s) ==> {
            let h = parse_unsigned(group_text(g, 1), u32::MAX as int)->0;
            let m = match parse_unsigned(group_text(g, 2), u32::MAX as int) {
                Some(m) => m,
                None => 0,
            };
            let later = group_text(g, 3) == "tarde"@ || group_text(g, 3) == "noche"@
                || group_text(g, 4) == "pm"@;
            &&& 0 <= s < 86400 && s % 60 == 0
            &&& (s % 3600) / 60 == at_most(m, 59)
            &&& later && h < 12 ==> s / 3600 == h + 12
            &&& !later && h == 12 ==> s / 3600 == 0
            &&& !(later && h < 12) && !(!later && h == 12) ==> s / 3600 == at_most(h, 23)
        },
{
    if let Some(h) = parse_unsigned(group_text(g, 1), u32::MAX as int) {
        let m = match parse_unsigned(group_text(g, 2), u32::MAX as int) {
            Some(m) => m,
            None => 0,
        };
        let pm = is_afternoon(g);
        let h24 = if pm && h < 12 {
            h + 12
        } else if !pm && h == 12 {
            0
        } else {
            h
        };
        lemma_clock_seconds(h24, m);
    }
}

/// A weekday plan lands on the named weekday, one to seven days ahead.
pub proof fn lemma_next_weekday(day: int, wd: int)
    requires
        0 <= wd < 7,
    ensures
        weekday(next_weekday_day(day, wd)) == wd,
        day < next_weekday_day(day, wd) <= day + 7,
{
    let w = weekday(day);
    let k = (wd - w + 6) % 7 + 1;
    assert(1 <= k <= 7);
    assert((day + k + 6) % 7 == wd);
}

/// A time given without a day is always placed after the current wall clock,
/// and less than a day later.
pub proof fn lemma_next_occurrence_is_ahead(second: u32, now: LocalDateTime)
    requires
        second < 86400,
        room_for(DuePlan::NextOccurrence { second }, now),
    ensures
        due_spec(DuePlan::NextOccurrence { second }, now) matches Some(Due::At { at }) && now.position()
            < at.position() <= now.position() + 86400,
{
}

/// A span is the amount times the unit's length in seconds.
pub proof fn lemma_span_seconds(amount: i64, unit: TimeUnit, now: LocalDateTime)
    requires
        i64::MIN <= amount * unit_seconds(unit) <= i64::MAX,
    ensures
        due_spec(DuePlan::After { amount, unit }, now) == Some(
            Due::After { seconds: (amount * unit_seconds(unit)) as i64 },
        ),
{
}

} // verus!
