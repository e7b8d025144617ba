//! What the application's commands compute before and after they reach the
//! store: new reminders, the metadata logged with a snooze, and which
//! reminder the "last" shortcuts act on.
use crate::clock::{is_timestamp_text, now_text};
use crate::date_parser::{
    parse_reminder_text, phrase_reading, phrase_repeat, phrase_title, span_overflows,
    ParsedReminder,
};
use crate::store::Reminder;
use crate::text::{is_ascii_digit, push_int_text, push_str, int_text, string_of, trim};
use vstd::prelude::*;

verus! {

broadcast use vstd::string::group_string_axioms;

/// Lower-case hexadecimal digits.
pub open spec fn is_lower_hex(c: char) -> bool {
    is_ascii_digit(c) || ('a' <= c <= 'f')
}

/// The text of a version-4 UUID: 36 characters, hyphens at 8, 13, 18 and 23,
/// lower-case hexadecimal digits elsewhere, the version digit `4` at 14.
pub open spec fn is_uuid_v4_text(s: Seq<char>) -> bool {
    &&& s.len() == 36
    &&& forall|i: int|
        0 <= i < 36 ==> if i == 8 || i == 13 || i == 18 || i == 23 {
            s[i] == '-'
        } else {
            is_lower_hex(#[trigger] s[i])
        }
    &&& s[14] == '4'
}

/// `uuid::Uuid::new_v4().to_string()`: a random version-4 UUID in its
/// hyphenated lower-case form.  Which one is left to chance; its shape is
/// what holds of every outcome.
#[verifier::external_body]
pub(crate) fn fresh_id() -> (r: String)
    ensures
        is_uuid_v4_text(r@),
{
    uuid::Uuid::new_v4().to_string()
}

/// A reminder as first stored: pending, never snoozed or notified, created
/// and updated at `now`.
pub open spec fn fresh_reminder(r: Reminder) -> bool {
    &&& r.status@ == "pending"@
    &&& r.created_at == r.updated_at
    &&& r.notified_at is None
    &&& r.completed_at is None
    &&& r.cancelled_at is None
    &&& r.snooze_count == 0
    &&& r.last_snoozed_at is None
    &&& r.created_by is None
}

/// `create_reminder`'s record: a pending reminder with the given id and
/// time, from the given fields; its source is "manual" unless given.
pub fn manual_reminder(
    id: String,
    now: String,
    title: String,
    description: Option<String>,
    due_at: String,
    source: Option<String>,
) -> (r: Reminder)
    ensures
        fresh_reminder(r),
        r.repeat_interval_seconds is None,
        r.id == id,
        r.created_at == now,
        r.title == title,
        r.description == description,
        r.original_text is None,
        r.due_at == due_at,
        r.parsed_time_expression is None,
        r.source@ == (match source {
            Some(s) => s@,
            None => "manual"@,
        }),
{
    let updated = now.clone();
    Reminder {
        id,
        title,
        description,
        original_text: None,
        due_at,
        status: crate::text::owned("pending"),
        created_at: now,
        updated_at: updated,
        notified_at: None,
        completed_at: None,
        cancelled_at: None,
        snooze_count: 0,
        last_snoozed_at: None,
        parsed_time_expression: None,
        source: match source {
            Some(s) => s,
            None => crate::text::owned("manual"),
        },
        repeat_interval_seconds: None,
        created_by: None,
    }
}

/// `create_reminder`: a new manual reminder with a fresh id, created now.
pub fn new_manual_reminder(
    title: String,
    description: Option<String>,
    due_at: String,
    source: Option<String>,
) -> (r: Reminder)
    ensures
        fresh_reminder(r),
        r.repeat_interval_seconds is None,
        is_uuid_v4_text(r.id@),
        r.title == title,
        r.description == description,
        r.due_at == due_at,
        r.source@ == (match source {
            Some(s) => s@,
            None => "manual"@,
        }),
        r.original_text is None,
        r.parsed_time_expression is None,
        is_timestamp_text(r.created_at@),
{
    let id = fresh_id();
    let now = now_text();
    manual_reminder(id, now, title, description, due_at, source)
}

/// `create_reminder_from_voice`'s record: the phrase's title, original text,
/// due time and expression, from the voice.
pub fn voice_reminder(id: String, now: String, parsed: ParsedReminder) -> (r: Reminder)
    ensures
        fresh_reminder(r),
        r.id == id,
        r.created_at == now,
        r.title == parsed.title,
        r.description is None,
        r.original_text == Some(parsed.original_text),
        r.due_at == parsed.due_at,
        r.parsed_time_expression == parsed.parsed_time_expression,
        r.source@ == "voice"@,
        r.repeat_interval_seconds == parsed.repeat_interval_seconds,
{
    let updated = now.clone();
    Reminder {
        id,
        title: parsed.title,
        description: None,
        original_text: Some(parsed.original_text),
        due_at: parsed.due_at,
        status: crate::text::owned("pending"),
        created_at: now,
        updated_at: updated,
        notified_at: None,
        completed_at: None,
        cancelled_at: None,
        snooze_count: 0,
        last_snoozed_at: None,
        parsed_time_expression: parsed.parsed_time_expression,
        source: crate::text::owned("voice"),
        repeat_interval_seconds: parsed.repeat_interval_seconds,
        created_by: None,
    }
}

/// `create_reminder_from_voice`: the reminder a spoken phrase asks for, with
/// a fresh id, created now; `None` where the phrase's moment cannot be placed
/// in local time (always where its span does not fit in `i64` seconds).  The
/// due and creation times are rendered local times.
pub fn new_voice_reminder(text: &str) -> (r: Option<Reminder>)
    ensures
        span_overflows(phrase_reading(text@).due) ==> r is None,
        r matches Some(rem) ==> {
            &&& is_timestamp_text(rem.due_at@)
            &&& is_timestamp_text(rem.created_at@)
            &&& fresh_reminder(rem)
            &&& is_uuid_v4_text(rem.id@)
            &&& rem.title@ == phrase_title(text@)
            &&& rem.original_text matches Some(o) && o@ == trim(text@)
            &&& rem.source@ == "voice"@
            &&& rem.repeat_interval_seconds == phrase_repeat(text@)
            &&& match rem.parsed_time_expression {
                Some(e) => phrase_reading(text@).expression == Some(e@),
                None => phrase_reading(text@).expression is None,
            }
        },
{
    let parsed = match parse_reminder_text(text) {
        Some(p) => p,
        None => {
            return None;
        },
    };
    let id = fresh_id();
    let now = now_text();
    Some(voice_reminder(id, now, parsed))
}

/// The metadata logged with a snooze: `{"minutes":N}`.
pub fn snooze_metadata(minutes: i32) -> (r: String)
    ensures
        r@ == "{\"minutes\":"@ + int_text(minutes as int) + "}"@,
{
    let mut v: Vec<char> = Vec::new();
    push_str(&mut v, "{\"minutes\":");
    push_int_text(&mut v, minutes as i64);
    push_str(&mut v, "}");
    string_of(&v)
}

pub const NO_PENDING: &'static str = "No hay recordatorios pendientes";

/// `snooze_last_reminder` and `complete_last_reminder` act on the last of the
/// pending reminders (the one due last); with none, they fail.
pub fn last_pending_id(pending: &Vec<Reminder>) -> (r: Result<String, String>)
    ensures
        pending@.len() == 0 ==> (r matches Err(e) && e@ == NO_PENDING@),
        pending@.len() > 0 ==> r == Ok::<String, String>(pending@.last().id),
{
    if pending.len() == 0 {
        return Err(crate::text::owned(NO_PENDING));
    }
    Ok(pending[pending.len() - 1].id.clone())
}

} // verus!
