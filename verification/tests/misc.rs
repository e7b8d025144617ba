use recordatorio::store::{names_both_trust_keys, DbMode};
use recordatorio::text::{chars_of, parse_i64, parse_u32, removed_str, split_char, trimmed};
use chrono::{Datelike, Timelike};
use recordatorio::clock::{Clock, LocalDateTime};
use recordatorio::commands::{
    last_pending_id, manual_reminder, new_manual_reminder, new_voice_reminder, snooze_metadata,
};
use recordatorio::notifications::{is_file_path, sound_choice, sound_setting, test_notification_plan, SoundChoice};
use recordatorio::scheduler::{
    due_check, due_checks_at, due_state, notice_seconds, overdue_body, overdue_title,
    reminder_body, rescheduled_due, scheduler_interval, should_notify, DueCheck,
};
use recordatorio::whisper::{
    audio_samples_check, candidate_variants, download_gate, model_filename, model_info, model_url, transcript_from_segments,
    transcription_gate, variant_size, wav_format_check, ModelState, NO_VOICE,
};

#[test]
fn model_files() {
    assert_eq!(
        model_url("small"),
        "https://huggingface.co/ggerganov/whisper.cpp/resolve/main/ggml-small.bin"
    );
    assert_eq!(model_filename("tiny"), "ggml-tiny.bin");
    assert_eq!(variant_size("medium"), "1.5 GB");
    assert_eq!(variant_size("large-v3-turbo"), "1.5 GB");
    assert_eq!(variant_size("base"), "142 MB");
    assert_eq!(variant_size("huge"), "?");
    let info = model_info(&None, "small");
    assert_eq!((info.variant.as_str(), info.size_label.as_str()), ("small", "466 MB"));
    let info = model_info(&Some("tiny".into()), "small");
    assert_eq!(info.size_label, "75 MB");
    assert_eq!(candidate_variants("small"), vec!["small", "large-v3-turbo", "small", "tiny", "base"]);
}

#[test]
fn model_gates() {
    assert!(transcription_gate(&ModelState::Ready, true).is_ok());
    assert_eq!(transcription_gate(&ModelState::Ready, false), Err("Modelo no cargado".to_string()));
    assert_eq!(
        transcription_gate(&ModelState::Error("x".into()), true),
        Err("Modelo no disponible: x".to_string())
    );
    assert!(transcription_gate(&ModelState::Downloading, true).is_err());
    assert!(transcription_gate(&ModelState::NotDownloaded, true).is_err());
    assert!(download_gate(&ModelState::Downloading).is_err());
    assert!(download_gate(&ModelState::Ready).is_ok());
    assert!(wav_format_check(true, 16).is_ok());
    assert!(wav_format_check(true, 24).is_err());
    assert!(wav_format_check(false, 16).is_err());
}

#[test]
fn transcripts() {
    let segs = vec![Some("  hola ".to_string()), None, Some("   ".to_string()), Some("mundo".to_string())];
    assert_eq!(transcript_from_segments(&segs), Ok("hola mundo".to_string()));
    assert_eq!(transcript_from_segments(&vec![]), Err(NO_VOICE.to_string()));
    assert_eq!(transcript_from_segments(&vec![Some(" ".into()), None]), Err(NO_VOICE.to_string()));
}

#[test]
fn sounds() {
    assert!(is_file_path("C:\\sonidos\\a.mp3"));
    assert!(is_file_path("/tmp/a"));
    assert!(is_file_path("ritmo.wav"));
    assert!(!is_file_path("Default"));
    assert!(matches!(sound_choice(None), SoundChoice::Silent));
    assert!(matches!(sound_choice(Some("")), SoundChoice::Silent));
    assert!(matches!(sound_choice(Some("a.wav")), SoundChoice::PlayFile(ref f) if f == "a.wav"));
    assert!(matches!(sound_choice(Some("Ping")), SoundChoice::SystemSound(ref f) if f == "Ping"));
    assert_eq!(sound_setting(Some(String::new())), None);
    assert_eq!(sound_setting(Some("x".into())), Some("x".to_string()));
    let p = test_notification_plan(Some("a.wav"), true);
    assert_eq!(p.play_file.as_deref(), Some("a.wav"));
    assert!(p.wait_for_file && !p.sleep_after && p.notification_sound.is_none());
    let p = test_notification_plan(Some("Ping"), true);
    assert_eq!(p.notification_sound.as_deref(), Some("Ping"));
    assert!(p.sleep_after && p.play_file.is_none());
}

#[test]
fn scheduler_decisions() {
    assert_eq!(scheduler_interval(Some("45")), 45);
    assert_eq!(scheduler_interval(Some("+45")), 45);
    assert_eq!(scheduler_interval(Some("-1")), 30);
    assert_eq!(scheduler_interval(Some("abc")), 30);
    assert_eq!(scheduler_interval(None), 30);
    assert!(should_notify("pending", DueCheck::Reached, 0));
    assert!(!should_notify("pending", DueCheck::Reached, 1));
    assert!(!should_notify("notified", DueCheck::Reached, 0));
    assert!(!should_notify("pending", DueCheck::NotYet, 0));
    assert_eq!(reminder_body("x"), "🔔 x");
    assert_eq!(overdue_title("x"), "📋 Vencido: x");
    assert_eq!(overdue_body("T"), "Este recordatorio venció a las T");
}

#[test]
fn due_checks() {
    let now = chrono::Local::now();
    let wall = now.naive_local();
    let clock = Clock {
        utc_seconds: now.timestamp(),
        utc_nanos: 0,
        local: LocalDateTime { day: wall.num_days_from_ce(), second: wall.num_seconds_from_midnight() },
    };
    assert_eq!(due_check("no es fecha", &clock, 0), DueCheck::Unparsed);
    assert_eq!(due_check("2000-01-01T00:00:00", &clock, 0), DueCheck::Reached);
    assert_eq!(due_check("2999-01-01T00:00:00", &clock, 0), DueCheck::NotYet);
    // Due in ten minutes: not yet, but within a notice of fifteen minutes.
    let soon = (wall + chrono::Duration::minutes(10)).format("%Y-%m-%dT%H:%M:%S").to_string();
    assert_eq!(due_check(&soon, &clock, 0), DueCheck::NotYet);
    assert_eq!(due_check(&soon, &clock, 15 * 60), DueCheck::Reached);
    let all = due_checks_at(&vec!["x".to_string(), soon.clone()], &clock, 15 * 60);
    assert_eq!(all, vec![DueCheck::Unparsed, DueCheck::Reached]);
}

#[test]
fn due_state_against_the_horizon() {
    assert_eq!(due_state(None, 100, 0), DueCheck::NoSuchLocalTime);
    assert_eq!(due_state(Some(100), 100, 0), DueCheck::Reached);
    assert_eq!(due_state(Some(101), 100, 0), DueCheck::NotYet);
    assert_eq!(due_state(Some(220), 100, 120), DueCheck::Reached);
    assert_eq!(due_state(Some(i64::MAX), i64::MAX, i64::MAX), DueCheck::Reached);
}

#[test]
fn advance_notice_setting() {
    assert_eq!(notice_seconds(Some("5")), 300);
    assert_eq!(notice_seconds(Some("0")), 0);
    assert_eq!(notice_seconds(Some("x")), 120);
    assert_eq!(notice_seconds(None), 120);
}

#[test]
fn repeating_reminders_move_ahead() {
    assert_eq!(
        rescheduled_due("2025-01-15T23:30:00", Some(3600)).as_deref(),
        Some("2025-01-16T00:30:00")
    );
    assert_eq!(
        rescheduled_due("2025-01-15T10:00:00", Some(86400)).as_deref(),
        Some("2025-01-16T10:00:00")
    );
    assert_eq!(rescheduled_due("2025-01-15T10:00:00", None), None);
    assert_eq!(rescheduled_due("2025-01-15T10:00:00", Some(0)), None);
    assert_eq!(rescheduled_due("mañana", Some(60)), None);
    assert_eq!(rescheduled_due("+262142-12-31T23:59:00", Some(120)), None);
}

#[test]
fn snoozed_reminder_is_notified_again() {
    // Displayed once for its first due time; snoozing gives it a new due time,
    // for which nothing has been displayed yet.
    assert!(!should_notify("pending", DueCheck::Reached, 1));
    assert!(should_notify("pending", DueCheck::Reached, 0));
}

fn is_uuid_v4(s: &str) -> bool {
    s.len() == 36
        && s.chars().enumerate().all(|(i, c)| {
            if [8, 13, 18, 23].contains(&i) { c == '-' } else { c.is_ascii_digit() || ('a'..='f').contains(&c) }
        })
        && s.chars().nth(14) == Some('4')
}

#[test]
fn new_reminders() {
    let r = manual_reminder("id".into(), "N".into(), "t".into(), None, "D".into(), None);
    assert_eq!((r.status.as_str(), r.source.as_str(), r.snooze_count), ("pending", "manual", 0));
    assert_eq!(r.updated_at, "N");
    let r = new_manual_reminder("t".into(), Some("d".into()), "D".into(), Some("voice".into()));
    assert!(is_uuid_v4(&r.id));
    assert_eq!(r.source, "voice");
    assert_eq!(r.created_at.len(), 19);
    let v = new_voice_reminder("recuérdame tomar agua en 10 minutos").unwrap();
    assert_eq!(v.title, "tomar agua");
    assert_eq!(v.parsed_time_expression.as_deref(), Some("en 10 minutos"));
    assert_eq!(v.source, "voice");
}

#[test]
fn snooze_and_last() {
    assert_eq!(snooze_metadata(15), "{\"minutes\":15}");
    assert_eq!(snooze_metadata(-3), "{\"minutes\":-3}");
    assert_eq!(snooze_metadata(i32::MIN), format!("{{\"minutes\":{}}}", i32::MIN));
    assert_eq!(last_pending_id(&vec![]), Err("No hay recordatorios pendientes".to_string()));
    let a = manual_reminder("a".into(), "N".into(), "t".into(), None, "D".into(), None);
    let b = manual_reminder("b".into(), "N".into(), "t".into(), None, "D".into(), None);
    assert_eq!(last_pending_id(&vec![a, b]), Ok("b".to_string()));
}

#[test]
fn text_operations() {
    let once = trimmed(&chars_of("\u{3000} a b \t\n"));
    assert_eq!(once.iter().collect::<String>(), "a b");
    assert_eq!(trimmed(&once), once);
    let r = removed_str(&chars_of("aaaa"), "aa");
    assert!(r.is_empty());
    let r = removed_str(&chars_of("que queque"), "que");
    assert_eq!(r.iter().collect::<String>(), " ");
    let parts = split_char(&chars_of("+a++b"), '+');
    let parts: Vec<String> = parts.iter().map(|p| p.iter().collect()).collect();
    assert_eq!(parts, vec!["", "a", "", "b"]);
    assert_eq!(parse_i64(&chars_of("-9223372036854775808")), Some(i64::MIN));
    assert_eq!(parse_i64(&chars_of("9223372036854775808")), None);
    assert_eq!(parse_i64(&chars_of("+7")), Some(7));
    assert_eq!(parse_i64(&chars_of("-")), None);
    assert_eq!(parse_u32(&chars_of("-1")), None);
    assert_eq!(parse_u32(&chars_of("4294967295")), Some(u32::MAX));
    assert_eq!(parse_u32(&chars_of("4294967296")), None);
    assert_eq!(parse_u32(&chars_of("")), None);
}

#[test]
fn voice_reminder_with_overflowing_span_is_refused() {
    assert!(new_voice_reminder("avisar en 9000000000000000 horas").is_none());
}

#[test]
fn voice_reminder_times_are_rendered() {
    let v = new_voice_reminder("recuérdame regar en 20 minutos").unwrap();
    assert_eq!(v.due_at.len(), 19);
    assert_eq!(v.created_at.len(), 19);
    assert_eq!(&v.created_at[10..11], "T");
    assert_eq!(v.created_at, v.updated_at);
}

#[test]
fn voice_reminder_keeps_its_repetition() {
    let v = new_voice_reminder("beber agua cada hora").unwrap();
    assert_eq!(v.repeat_interval_seconds, Some(3600));
    let m = new_manual_reminder("t".into(), None, "2025-01-15T10:00:00".into(), None);
    assert_eq!(m.original_text, None);
    assert_eq!(m.parsed_time_expression, None);
    assert_eq!(m.repeat_interval_seconds, None);
}

#[test]
fn empty_recordings_are_refused() {
    assert_eq!(audio_samples_check(0), Err("El archivo de audio está vacío".to_string()));
    assert_eq!(audio_samples_check(1), Ok(()));
}

#[test]
fn connection_text_naming_both_trust_keys_is_not_used() {
    let both = "Server=h;TrustServerCertificate=true;TrustServerCertificateCA=ca.pem";
    assert!(names_both_trust_keys(both));
    assert!(names_both_trust_keys("server=h;trustservercertificate=yes;\"TrustServer\"CertificateCA=x"));
    assert!(!names_both_trust_keys("Server=h;TrustServerCertificateCA=ca.pem"));
    assert!(!names_both_trust_keys("Server=h;TrustServerCertificate=true"));
    let m = DbMode::opening_from(&Some(both.to_string()), &Some("compartido".to_string()));
    assert!(!m.remote_configured);
    assert!(!m.use_remote);
}
