//! Dates and times.  The library reasons about local wall-clock time as plain
//! numbers: a day counted from January 1 of year 1 (day 1) in the proleptic
//! Gregorian calendar, and a second of that day.  Reading the clock, the
//! machine's time zone and the rendering of dates as text are `chrono`'s.
use chrono::Datelike;
use chrono::Timelike;
use crate::text::{digit_char, two_digit_text};
use vstd::prelude::*;

verus! {

/// The day number of `NaiveDate::MIN` (January 1 of year -262143).
pub const FIRST_DAY: i32 = -95746129;

/// The day number of `NaiveDate::MAX` (December 31 of year 262142).
pub const LAST_DAY: i32 = 95745399;

pub const SECONDS_PER_DAY: u32 = 86400;

/// A local wall-clock reading: a day number and a second of that day.
#[derive(Clone, Copy, Debug, PartialEq, Eq, Structural)]
pub struct LocalDateTime {
    pub day: i32,
    pub second: u32,
}

impl LocalDateTime {
    /// A reading that `chrono` can represent.
    pub open spec fn valid(self) -> bool {
        FIRST_DAY <= self.day <= LAST_DAY && self.second < SECONDS_PER_DAY
    }

    /// The reading as a count of seconds, for comparisons.
    pub open spec fn position(self) -> int {
        self.day * 86400 + self.second
    }
}

/// A reading of the clock: the instant (seconds and nanoseconds since the Unix
/// epoch, UTC) and the local wall clock at that instant.
#[derive(Clone, Copy, Debug)]
pub struct Clock {
    pub utc_seconds: i64,
    pub utc_nanos: u32,
    pub local: LocalDateTime,
}

/// The position (`day * 86400 + second`, as `LocalDateTime::position`) of
/// the UTC wall clock at `utc_seconds` seconds after the Unix epoch, which is
/// day 719163.
pub open spec fn epoch_position(utc_seconds: int) -> int {
    utc_seconds + 719163 * 86400
}

/// Two positions less than a day apart: a local wall clock and the UTC one
/// differ by a time-zone offset, which `chrono` keeps strictly within a day.
pub open spec fn within_a_day(a: int, b: int) -> bool {
    b - 86400 < a < b + 86400
}

/// `chrono::Local::now()`: the instant and its local wall clock.  What holds of
/// every reading: `Utc::now` takes the nanoseconds of a `Duration`, so they
/// are below a second; the local wall clock (`naive_local`, which panics out
/// of range) is a date-time `NaiveDate` has; and it differs from the UTC one
/// by the zone's offset, which is less than a day.
#[verifier::external_body]
pub(crate) fn read_clock() -> (c: Clock)
    ensures
        c.utc_nanos < 1_000_000_000,
        c.local.valid(),
        within_a_day(c.local.position(), epoch_position(c.utc_seconds as int)),
{
    let now = chrono::Local::now();
    let wall = now.naive_local();
    Clock {
        utc_seconds: now.timestamp(),
        utc_nanos: now.timestamp_subsec_nanos(),
        local: LocalDateTime { day: wall.num_days_from_ce(), second: wall.num_seconds_from_midnight() },
    }
}

/// The weekday of a day number, Monday being 0 and Sunday 6
/// (`Weekday::num_days_from_monday`).
pub open spec fn weekday(day: int) -> int {
    (day + 6) % 7
}

/// `chrono`'s weekday of a day number: day 1 (January 1 of year 1) is a
/// Monday, and weekdays repeat every seven days.
#[verifier::external_body]
pub(crate) fn weekday_index(day: i32) -> (w: u32)
    requires
        FIRST_DAY <= day <= LAST_DAY,
    ensures
        w == weekday(day as int),
{
    chrono::NaiveDate::from_num_days_from_ce_opt(day).unwrap().weekday().num_days_from_monday()
}

/// What `format("%Y-%m-%dT%H:%M:%S")` writes for a local date-time whose date
/// has the day number `day` and whose time is `second` seconds after that
/// day's midnight.
pub uninterp spec fn timestamp_text(day: int, second: int) -> Seq<char>;

/// Four decimal digits of `n` (below 10000), zero-padded.
pub open spec fn four_digit_text(n: int) -> Seq<char> {
    seq![digit_char(n / 1000), digit_char((n / 100) % 10), digit_char((n / 10) % 10), digit_char(n % 10)]
}

/// The proleptic Gregorian year, month and day of a day number (day 1 being
/// January 1 of year 1), for day numbers from 1 on: days are counted from
/// March 1 of year 0 in 400-year eras of 146097 days, so that leap days fall
/// at the end of each counted year.
pub open spec fn civil_date(day: int) -> (int, int, int) {
    let z = day + 305;
    let era = z / 146097;
    let doe = z - era * 146097;
    let yoe = (doe - doe / 1460 + doe / 36524 - doe / 146096) / 365;
    let doy = doe - (365 * yoe + yoe / 4 - yoe / 100);
    let mp = (5 * doy + 2) / 153;
    let d = doy - (153 * mp + 2) / 5 + 1;
    let m = if mp < 10 { mp + 3 } else { mp - 9 };
    let y = yoe + era * 400 + if m <= 2 { 1int } else { 0int };
    (y, m, d)
}

/// What the format's documentation fixes of that text for a date in years
/// 1 to 9999 (day numbers 1 to 3652059): the date's year as four zero-padded
/// digits, then `-MM-DD`, `T` and `HH:MM:SS`, each field two zero-padded
/// digits.
pub open spec fn timestamp_shape(day: int, second: int, s: Seq<char>) -> bool {
    1 <= day <= 3652059 ==> {
        &&& s.len() == 19
        &&& s[4] == '-' && s[7] == '-' && s[10] == 'T' && s[13] == ':' && s[16] == ':'
        &&& s.subrange(0, 4) == four_digit_text(civil_date(day).0)
        &&& s.subrange(5, 7) == two_digit_text(civil_date(day).1)
        &&& s.subrange(8, 10) == two_digit_text(civil_date(day).2)
        &&& s.subrange(11, 13) == two_digit_text(second / 3600)
        &&& s.subrange(14, 16) == two_digit_text((second % 3600) / 60)
        &&& s.subrange(17, 19) == two_digit_text(second % 60)
    }
}

/// `s` is the rendering of the day `day` at `second` (below 86400).
pub open spec fn renders(s: Seq<char>, day: int, second: int) -> bool {
    &&& 0 <= second < 86400
    &&& s == timestamp_text(day, second)
    &&& timestamp_shape(day, second, s)
}

/// Text of the shape that rendering gives: the rendering of some day and of
/// some second of it.
pub open spec fn is_timestamp_text(s: Seq<char>) -> bool {
    exists|day: int, second: int| #[trigger] renders(s, day, second)
}

/// `s` renders a local wall clock less than a day away from the UTC wall
/// clock `utc_seconds` seconds after the Unix epoch.
pub open spec fn renders_near(s: Seq<char>, utc_seconds: int) -> bool {
    exists|day: int, second: int|
        #[trigger] renders(s, day, second) && within_a_day(
            day * 86400 + second,
            epoch_position(utc_seconds),
        )
}

/// The day number (from January 1 of year 1) of the UTC day in which a count
/// of seconds since the Unix epoch falls.
pub open spec fn utc_day(seconds: int) -> int {
    seconds / 86400 + 719163
}

/// What `chrono` needs to add `seconds` whole seconds to the clock's instant:
/// the instant is one `DateTime::from_timestamp` accepts (nanoseconds below a
/// second, its UTC day in the calendar), the span is a `TimeDelta`
/// (`try_seconds` takes at most `i64::MAX / 1000` seconds either way), and
/// the sum's UTC day is in the calendar too.
pub open spec fn after_in_range(clock: Clock, seconds: i64) -> bool {
    &&& clock.utc_nanos < 1_000_000_000
    &&& -(i64::MAX / 1000) <= seconds <= i64::MAX / 1000
    &&& FIRST_DAY <= utc_day(clock.utc_seconds as int) <= LAST_DAY
    &&& FIRST_DAY <= utc_day(clock.utc_seconds + seconds) <= LAST_DAY
}

/// Text that renders a wall clock near an instant is text of the rendering's
/// shape.
pub proof fn lemma_near_is_timestamp(s: Seq<char>, utc_seconds: int)
    requires
        renders_near(s, utc_seconds),
    ensures
        is_timestamp_text(s),
{
    let (d, t) = choose|d: int, t: int|
        #[trigger] renders(s, d, t) && within_a_day(d * 86400 + t, epoch_position(utc_seconds));
    assert(renders(s, d, t));
}

/// `DateTime<Local> + TimeDelta::seconds(seconds)` for the clock instant,
/// rendered with `%Y-%m-%dT%H:%M:%S` in the machine's time zone.  `None` where
/// `chrono` cannot represent the delta or the sum (where `+` panics); where
/// `after_in_range` holds, `from_timestamp`, `try_seconds` and
/// `checked_add_signed` all succeed (placing a UTC instant in the zone and
/// rendering it cannot fail), so the text is there.  It is the rendering of
/// the sum's local date and time: the sum's UTC wall clock moved by the
/// zone's offset, which `chrono` keeps within a day (the nanoseconds are below
/// a second, so no leap second is shown).  The offset depends on the time
/// zone and is not stated.
#[verifier::external_body]
pub(crate) fn local_text_after(clock: &Clock, seconds: i64) -> (r: Option<String>)
    requires
        clock.utc_nanos < 1_000_000_000,
    ensures
        after_in_range(*clock, seconds) ==> r is Some,
        r matches Some(s) ==> renders_near(s@, clock.utc_seconds + seconds),
{
    let now = chrono::DateTime::from_timestamp(clock.utc_seconds, clock.utc_nanos)?.with_timezone(
        &chrono::Local,
    );
    let delta = chrono::TimeDelta::try_seconds(seconds)?;
    Some(now.checked_add_signed(delta)?.format("%Y-%m-%dT%H:%M:%S").to_string())
}

/// The local wall-clock time `at` placed in the machine's time zone
/// (`NaiveDateTime::and_local_timezone(Local)`), rendered with
/// `%Y-%m-%dT%H:%M:%S`.  `None` where that local time does not exist or is
/// ambiguous (where `MappedLocalTime::unwrap` panics), and where `at` is no
/// date and time `chrono` has.  The date-time placed in the zone keeps `at`
/// as its local date and time, so the text is the rendering of `at`; whether
/// `at` exists in the zone depends on the time zone and is not stated.
#[verifier::external_body]
pub(crate) fn local_text_at(at: LocalDateTime) -> (r: Option<String>)
    ensures
        r matches Some(s) ==> at.valid() && s@ == timestamp_text(at.day as int, at.second as int)
            && renders(s@, at.day as int, at.second as int),
{
    let date = chrono::NaiveDate::from_num_days_from_ce_opt(at.day)?;
    let time = chrono::NaiveTime::from_num_seconds_from_midnight_opt(at.second, 0)?;
    Some(date.and_time(time).and_local_timezone(chrono::Local).single()?.format(
        "%Y-%m-%dT%H:%M:%S",
    ).to_string())
}

/// The instant (seconds since the Unix epoch) of the local wall-clock time
/// `at` in the machine's time zone; `None` where that local time does not
/// exist or is ambiguous, and where `at` is no date and time `chrono` has.
/// The instant's UTC wall clock is `at` moved back by the zone's offset,
/// which `chrono` keeps within a day; the offset itself is not stated.
#[verifier::external_body]
pub(crate) fn local_instant(at: LocalDateTime) -> (r: Option<i64>)
    ensures
        r matches Some(i) ==> at.valid() && within_a_day(at.position(), epoch_position(i as int)),
{
    let date = chrono::NaiveDate::from_num_days_from_ce_opt(at.day)?;
    let time = chrono::NaiveTime::from_num_seconds_from_midnight_opt(at.second, 0)?;
    Some(date.and_time(time).and_local_timezone(chrono::Local).single()?.timestamp())
}

/// The date-time `at` itself, with no time zone (`NaiveDateTime::format`
/// with `%Y-%m-%dT%H:%M:%S`): the same fields a local date-time showing `at`
/// is rendered with.  `None` exactly where `at` is no date and time `chrono`
/// has.
#[verifier::external_body]
pub(crate) fn naive_text(at: LocalDateTime) -> (r: Option<String>)
    ensures
        r is Some <==> at.valid(),
        r matches Some(s) ==> s@ == timestamp_text(at.day as int, at.second as int)
            && renders(s@, at.day as int, at.second as int),
{
    let date = chrono::NaiveDate::from_num_days_from_ce_opt(at.day)?;
    let time = chrono::NaiveTime::from_num_seconds_from_midnight_opt(at.second, 0)?;
    Some(date.and_time(time).format("%Y-%m-%dT%H:%M:%S").to_string())
}

/// The local wall-clock time now, rendered with `%Y-%m-%dT%H:%M:%S`
/// (`Local::now().format(..)`).  Which date and time depends on the clock and
/// the time zone: only the shape of the text is stated.
#[verifier::external_body]
pub(crate) fn now_text() -> (r: String)
    ensures
        is_timestamp_text(r@),
{
    chrono::Local::now().format("%Y-%m-%dT%H:%M:%S").to_string()
}

/// What `NaiveDateTime::parse_from_str(s, "%Y-%m-%dT%H:%M:%S")` gives for `s`,
/// as a day number and a second of the day.
pub uninterp spec fn parsed_timestamp(s: Seq<char>) -> Option<(int, int)>;

/// Reading the text `s` gave `r`: where `s` renders a day in years 1 to 9999
/// and a second of it, `r` is that day and second.
pub open spec fn reads_back(s: Seq<char>, r: Option<LocalDateTime>) -> bool {
    forall|day: int, second: int|
        #![trigger timestamp_text(day, second)]
        1 <= day <= 3652059 && 0 <= second < 86400 && s == timestamp_text(day, second) ==> r
            == Some(LocalDateTime { day: day as i32, second: second as u32 }) && parsed_timestamp(s)
            == Some((day, second))
}

/// `NaiveDateTime::parse_from_str` with the format `%Y-%m-%dT%H:%M:%S`; the
/// date and time it reads always make a valid reading.  Parsing with the
/// format that rendering used gives back the date and time rendered, for
/// years 1 to 9999 (whose years `%Y` writes as four plain digits).
#[verifier::external_body]
pub(crate) fn parse_timestamp(s: &str) -> (r: Option<LocalDateTime>)
    ensures
        match r {
            Some(t) => parsed_timestamp(s@) == Some((t.day as int, t.second as int)) && t.valid(),
            None => parsed_timestamp(s@) is None,
        },
        reads_back(s@, r),
{
    let t = chrono::NaiveDateTime::parse_from_str(s, "%Y-%m-%dT%H:%M:%S").ok()?;
    Some(LocalDateTime { day: t.num_days_from_ce(), second: t.num_seconds_from_midnight() })
}

} // verus!
