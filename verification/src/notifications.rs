//! Notification sounds: whether a configured sound is a file the library
//! plays itself or a system sound the notification carries.
use crate::text::{chars_of, contains_str, ends_with_str, has_substring, has_suffix};
use vstd::prelude::*;

verus! {

broadcast use vstd::string::group_string_axioms;

/// Seconds a sound file is allowed to play.
pub const SOUND_TIMEOUT_SECS: u64 = 20;

pub const TEST_TITLE: &'static str = "Recordatorio";

pub const TEST_BODY: &'static str = "Notificación de prueba";

pub open spec fn is_file_path_spec(path: Seq<char>) -> bool {
    has_substring(path, "\\"@) || has_substring(path, "/"@) || has_suffix(path, ".wav"@)
}

/// `is_file_path`: a path with a separator, or a `.wav` name, is a file;
/// anything else names a system sound.
pub fn is_file_path(path: &str) -> (b: bool)
    ensures
        b == is_file_path_spec(path@),
{
    let v = chars_of(path);
    contains_str(&v, "\\") || contains_str(&v, "/") || ends_with_str(&v, ".wav")
}

/// How a notification sounds.
pub enum SoundChoice {
    /// No sound.
    Silent,
    /// Play this file, and show the notification without a sound.
    PlayFile(String),
    /// Show the notification with this system sound.
    SystemSound(String),
}

/// `add_sound`'s choice for a configured sound: none or empty means silent.
pub fn sound_choice(sound_path: Option<&str>) -> (r: SoundChoice)
    ensures
        match sound_path {
            None => r is Silent,
            Some(p) => if p@.len() == 0 {
                r is Silent
            } else if is_file_path_spec(p@) {
                r matches SoundChoice::PlayFile(f) && f@ == p@
            } else {
                r matches SoundChoice::SystemSound(f) && f@ == p@
            },
        },
{
    match sound_path {
        Some(p) => {
            let v = chars_of(p);
            if v.len() == 0 {
                SoundChoice::Silent
            } else if is_file_path(p) {
                SoundChoice::PlayFile(crate::text::owned(p))
            } else {
                SoundChoice::SystemSound(crate::text::owned(p))
            }
        },
        None => SoundChoice::Silent,
    }
}

/// The stored sound setting as a sound to use: an empty or missing value
/// means none.
pub fn sound_setting(value: Option<String>) -> (r: Option<String>)
    ensures
        match value {
            Some(v) => if v@.len() == 0 {
                r is None
            } else {
                r == Some(v)
            },
            None => r is None,
        },
{
    match value {
        Some(v) => {
            let c = chars_of(v.as_str());
            if c.len() == 0 {
                None
            } else {
                Some(v)
            }
        },
        None => None,
    }
}

/// What `send_test_notification` does.
pub struct TestNotificationPlan {
    /// A sound file to play before the notification.
    pub play_file: Option<String>,
    /// Whether playing that file waits until the time allowed for it is over.
    pub wait_for_file: bool,
    /// The system sound the notification carries.
    pub notification_sound: Option<String>,
    /// Whether to wait the time allowed for a sound after the notification.
    pub sleep_after: bool,
}

/// `send_test_notification`'s plan: a file sound is played (and waited for,
/// if asked) and the notification is silent; otherwise the notification
/// carries the sound, and the wait, if asked, follows it.
pub fn test_notification_plan(sound_path: Option<&str>, wait: bool) -> (r: TestNotificationPlan)
    ensures
        match sound_choice_spec(sound_path) {
            0 => r.play_file is None && r.notification_sound is None && r.sleep_after == wait,
            1 => r.wait_for_file == wait && r.notification_sound is None && !r.sleep_after && (
            r.play_file matches Some(f) && Some(f@) == path_view(sound_path)),
            _ => r.play_file is None && r.sleep_after == wait && (r.notification_sound matches Some(
                s
            ) && Some(s@) == path_view(sound_path)),
        },
{
    match sound_choice(sound_path) {
        SoundChoice::Silent => TestNotificationPlan {
            play_file: None,
            wait_for_file: false,
            notification_sound: None,
            sleep_after: wait,
        },
        SoundChoice::PlayFile(f) => TestNotificationPlan {
            play_file: Some(f),
            wait_for_file: wait,
            notification_sound: None,
            sleep_after: false,
        },
        SoundChoice::SystemSound(s) => TestNotificationPlan {
            play_file: None,
            wait_for_file: false,
            notification_sound: Some(s),
            sleep_after: wait,
        },
    }
}

pub open spec fn path_view(p: Option<&str>) -> Option<Seq<char>> {
    match p {
        Some(s) => Some(s@),
        None => None,
    }
}

/// 0: silent, 1: a file to play, 2: a system sound.
pub open spec fn sound_choice_spec(sound_path: Option<&str>) -> u8 {
    match sound_path {
        None => 0,
        Some(p) => if p@.len() == 0 {
            0
        } else if is_file_path_spec(p@) {
            1
        } else {
            2
        },
    }
}

} // verus!
