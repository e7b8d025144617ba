use recordatorio::store::{
    all_reminders, default_settings, default_shortcuts, delete_reminder, insert_reminder,
    pending_reminders, reminder_from_row, set_setting, snooze, snooze_times, snooze_times_at,
    status_column, update_shortcut,
    update_status, Backend, DbMode, RemoteRow, Reminder, SqlValue, LOCAL_DELETE_EVENTS,
    LOCAL_PENDING_REMINDERS,
};

fn texts(params: &[SqlValue]) -> Vec<String> {
    params
        .iter()
        .map(|p| match p {
            SqlValue::Text(s) => s.clone(),
            SqlValue::Null => "NULL".to_string(),
            SqlValue::Int(i) => format!("#{}", i),
        })
        .collect()
}

#[test]
fn defaults() {
    let s = default_settings();
    assert_eq!(s.len(), 7);
    assert_eq!(s[1], ("scheduler_interval_secs", "30"));
    assert_eq!(s[6], ("db_mode", "local"));
    let k = default_shortcuts();
    assert_eq!(k[0], ("start_recording", "Ctrl+Alt+R"));
    assert_eq!(k[4], ("complete_last", "Ctrl+Alt+D"));
}

#[test]
fn mode_transitions() {
    let mut m = DbMode::opening(true, &Some("compartido".to_string()));
    assert!(m.use_remote);
    assert_eq!(m.backend(), Backend::Remote);
    assert_eq!(m.get_db_mode(), "compartido");
    assert_eq!(m.set_db_mode("local"), Ok("local".to_string()));
    assert_eq!(m.backend(), Backend::Local);
    assert_eq!(m.set_db_mode("otro"), Err("Modo inválido: otro".to_string()));
    assert_eq!(m.get_db_mode(), "local");

    let mut n = DbMode::opening(false, &Some("compartido".to_string()));
    assert!(!n.use_remote);
    assert_eq!(
        n.set_db_mode("compartido"),
        Err("No hay configuración de SQL Server disponible".to_string())
    );
    assert_eq!(n.get_db_mode(), "local");
}

#[test]
fn status_columns() {
    assert_eq!(status_column("notified"), Some("notified_at"));
    assert_eq!(status_column("completed"), Some("completed_at"));
    assert_eq!(status_column("cancelled"), Some("cancelled_at"));
    assert_eq!(status_column("pending"), None);
    let s = update_status(Backend::Local, "r1", "completed", "T");
    assert_eq!(s.sql, "UPDATE reminders SET status = ?1, updated_at = ?2, completed_at = ?3 WHERE id = ?4");
    assert_eq!(texts(&s.params), vec!["completed", "T", "T", "r1"]);
    let s = update_status(Backend::Remote, "r1", "pending", "T");
    assert_eq!(s.sql, "UPDATE reminders SET status = @P1, updated_at = @P2 WHERE id = @P3");
    assert_eq!(texts(&s.params), vec!["pending", "T", "r1"]);
}

fn sample() -> Reminder {
    Reminder {
        id: "r1".into(),
        title: "t".into(),
        description: None,
        original_text: Some("o".into()),
        due_at: "2024-01-01T10:00:00".into(),
        status: "pending".into(),
        created_at: "c".into(),
        updated_at: "u".into(),
        notified_at: None,
        completed_at: None,
        cancelled_at: None,
        snooze_count: 2,
        last_snoozed_at: None,
        parsed_time_expression: None,
        source: "manual".into(),
        repeat_interval_seconds: Some(60),
        created_by: Some("someone".into()),
    }
}

#[test]
fn insert_records_the_device() {
    let s = insert_reminder(Backend::Local, &sample(), "PC-1");
    assert!(s.sql.starts_with("INSERT INTO reminders"));
    assert_eq!(
        texts(&s.params),
        vec!["r1", "t", "NULL", "o", "2024-01-01T10:00:00", "pending", "c", "u", "#2", "manual", "NULL", "#60", "PC-1"]
    );
}

#[test]
fn queries() {
    let s = pending_reminders(Backend::Local);
    assert_eq!(s.sql, LOCAL_PENDING_REMINDERS);
    assert!(s.params.is_empty());
    let s = pending_reminders(Backend::Remote);
    assert_eq!(texts(&s.params), vec!["pending", "notified"]);
    let s = all_reminders(Backend::Remote, Some("completed"));
    assert!(s.sql.ends_with("WHERE status = @P1 ORDER BY due_at DESC"));
    let s = all_reminders(Backend::Local, None);
    assert!(s.sql.ends_with("FROM reminders ORDER BY due_at DESC"));
}

#[test]
fn deletes() {
    let d = delete_reminder(Backend::Local, "r1");
    assert_eq!(d.len(), 2);
    assert_eq!(d[0].sql, LOCAL_DELETE_EVENTS);
    let d = delete_reminder(Backend::Remote, "r1");
    assert_eq!(d[0].sql, "DELETE FROM reminders WHERE id = @P1");
    let d = delete_reminder(Backend::Remote, "x' OR '1'='1");
    assert_eq!(texts(&d[0].params), vec!["x' OR '1'='1"]);
    assert!(!d[0].sql.contains("OR"));
}

#[test]
fn other_statements() {
    let s = snooze(Backend::Remote, "r1", "D", "N");
    assert_eq!(texts(&s.params), vec!["pending", "D", "N", "r1"]);
    let s = update_shortcut("s1", "Ctrl+Q", false, "N");
    assert_eq!(texts(&s.params), vec!["Ctrl+Q", "#0", "N", "s1"]);
    let s = set_setting("theme", "dark", "N");
    assert_eq!(texts(&s.params), vec!["theme", "dark", "N"]);
}

fn full_row() -> RemoteRow {
    RemoteRow {
        id: Some("r1".into()),
        title: Some("t".into()),
        description: None,
        original_text: None,
        due_at: Some("d".into()),
        status: Some("pending".into()),
        created_at: Some("c".into()),
        updated_at: Some("u".into()),
        notified_at: None,
        completed_at: None,
        cancelled_at: None,
        snooze_count: None,
        last_snoozed_at: None,
        parsed_time_expression: None,
        source: Some("voice".into()),
        repeat_interval_seconds: None,
        created_by: Some("PC".into()),
    }
}

#[test]
fn rows() {
    let r = reminder_from_row(full_row()).unwrap();
    assert_eq!(r.snooze_count, 0);
    assert_eq!(r.source, "voice");
    let mut row = full_row();
    row.source = None;
    assert!(reminder_from_row(row).is_none());
}

#[test]
fn snooze_times_in_range_are_rendered() {
    let clock = recordatorio::clock::Clock {
        utc_seconds: 1_700_000_000,
        utc_nanos: 0,
        local: recordatorio::clock::LocalDateTime { day: 738_900, second: 0 },
    };
    let (due, now) = snooze_times_at(&clock, 10).unwrap();
    assert_eq!(due.len(), 19);
    assert_eq!(now.len(), 19);
    assert!(due > now);
}

#[test]
fn snooze_times_now() {
    let (due, now) = snooze_times(5).unwrap();
    assert_eq!(&due[10..11], "T");
    assert_eq!(&now[10..11], "T");
}

#[test]
fn shared_mode_needs_a_connection_string_tiberius_accepts() {
    let conn = Some("server=tcp:localhost,1433;user=sa;password=x;database=r".to_string());
    let shared = Some("compartido".to_string());
    let m = DbMode::opening_from(&conn, &shared);
    assert!(m.remote_configured);
    assert!(m.use_remote);
    let m = DbMode::opening_from(&None, &shared);
    assert!(!m.remote_configured);
    assert!(!m.use_remote);
}
