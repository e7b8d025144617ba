use chrono::Datelike;
use recordatorio::clock::{Clock, LocalDateTime, FIRST_DAY, LAST_DAY};
use recordatorio::date_parser::{
    due_of, extract_time_from_text, extract_title, parse_datetime, parse_reminder_text,
    parse_reminder_text_at, read_lowercase, render_due, Due, DuePlan, TimeUnit,
};

fn day(y: i32, m: u32, d: u32) -> i32 {
    chrono::NaiveDate::from_ymd_opt(y, m, d).unwrap().num_days_from_ce()
}

fn at(y: i32, m: u32, d: u32, h: u32, min: u32) -> LocalDateTime {
    LocalDateTime { day: day(y, m, d), second: h * 3600 + min * 60 }
}

// Monday, January 15, 2024, at noon.
fn monday_noon() -> LocalDateTime {
    at(2024, 1, 15, 12, 0)
}

#[test]
fn calendar_bounds_match_chrono() {
    assert_eq!(chrono::NaiveDate::MIN.num_days_from_ce(), FIRST_DAY);
    assert_eq!(chrono::NaiveDate::MAX.num_days_from_ce(), LAST_DAY);
}

#[test]
fn relative_minutes() {
    let p = parse_datetime("en 15 minutos", monday_noon()).unwrap();
    assert_eq!(p.due, Due::After { seconds: 900 });
    assert_eq!(p.confidence_percent, 95);
    assert_eq!(p.expression.as_deref(), Some("en 15 minutos"));
}

#[test]
fn relative_minutes_upper_case_is_lowered() {
    let p = parse_datetime("EN 5 MIN", monday_noon()).unwrap();
    assert_eq!(p.due, Due::After { seconds: 300 });
    assert_eq!(p.expression.as_deref(), Some("en 5 min"));
}

#[test]
fn one_hour_in_words() {
    let p = parse_datetime("llamar en una hora", monday_noon()).unwrap();
    assert_eq!(p.due, Due::After { seconds: 3600 });
    assert_eq!(p.confidence_percent, 90);
    assert_eq!(p.expression.as_deref(), Some("en una hora"));
}

#[test]
fn one_minute_in_words() {
    let p = parse_datetime("dentro de un minuto", monday_noon()).unwrap();
    assert_eq!(p.due, Due::After { seconds: 60 });
    assert_eq!(p.confidence_percent, 90);
}

#[test]
fn relative_hours() {
    let p = parse_datetime("reunión dentro de 2 horas", monday_noon()).unwrap();
    assert_eq!(p.due, Due::After { seconds: 7200 });
    assert_eq!(p.confidence_percent, 95);
    assert_eq!(p.expression.as_deref(), Some("dentro de 2 horas"));
}

#[test]
fn tomorrow_at_nine() {
    let p = parse_datetime("comprar leche mañana a las 9", monday_noon()).unwrap();
    assert_eq!(p.due, Due::At { at: at(2024, 1, 16, 9, 0) });
    assert_eq!(p.confidence_percent, 85);
    assert_eq!(p.expression.as_deref(), Some("mañana"));
}

#[test]
fn tomorrow_without_time_is_nine_am() {
    let p = parse_datetime("mañana", monday_noon()).unwrap();
    assert_eq!(p.due, Due::At { at: at(2024, 1, 16, 9, 0) });
}

#[test]
fn today_in_the_afternoon() {
    let p = parse_datetime("hoy a las 5 de la tarde", monday_noon()).unwrap();
    assert_eq!(p.due, Due::At { at: at(2024, 1, 15, 17, 0) });
    assert_eq!(p.expression.as_deref(), Some("hoy"));
}

#[test]
fn today_without_time_falls_through() {
    let p = parse_datetime("hoy", monday_noon()).unwrap();
    assert_eq!(p.due, Due::After { seconds: 3600 });
    assert_eq!(p.confidence_percent, 20);
    assert_eq!(p.expression, None);
}

#[test]
fn named_weekday_is_strictly_ahead() {
    // Monday names Monday: a week later.
    let p = parse_datetime("el lunes a las 3", monday_noon()).unwrap();
    assert_eq!(p.due, Due::At { at: at(2024, 1, 22, 3, 0) });
    assert_eq!(p.confidence_percent, 80);
    assert_eq!(p.expression.as_deref(), Some("lunes"));
    let p = parse_datetime("el viernes", monday_noon()).unwrap();
    assert_eq!(p.due, Due::At { at: at(2024, 1, 19, 9, 0) });
    let p = parse_datetime("el sábado", monday_noon()).unwrap();
    assert_eq!(p.due, Due::At { at: at(2024, 1, 20, 9, 0) });
    assert_eq!(p.expression.as_deref(), Some("sábado"));
    let p = parse_datetime("el martes", monday_noon()).unwrap();
    assert_eq!(p.due, Due::At { at: at(2024, 1, 16, 9, 0) });
}

#[test]
fn one_week() {
    let p = parse_datetime("en una semana", monday_noon()).unwrap();
    assert_eq!(p.due, Due::After { seconds: 604800 });
    assert_eq!(p.confidence_percent, 90);
    assert_eq!(p.expression.as_deref(), Some("una semana"));
}

#[test]
fn day_count() {
    let p = parse_datetime("pagar en 3 días", monday_noon()).unwrap();
    assert_eq!(p.due, Due::After { seconds: 3 * 86400 });
    assert_eq!(p.confidence_percent, 85);
    assert_eq!(p.expression.as_deref(), Some("3 días"));
}

#[test]
fn time_only_passed_today_goes_to_tomorrow() {
    let p = parse_datetime("a las 10:30", monday_noon()).unwrap();
    assert_eq!(p.due, Due::At { at: at(2024, 1, 16, 10, 30) });
    assert_eq!(p.confidence_percent, 60);
    assert_eq!(p.expression.as_deref(), Some("a las 10:30"));
}

#[test]
fn time_only_still_ahead_is_today() {
    let p = parse_datetime("18:05", monday_noon()).unwrap();
    assert_eq!(p.due, Due::At { at: at(2024, 1, 15, 18, 5) });
    assert_eq!(p.expression.as_deref(), Some("a las 18:05"));
}

#[test]
fn time_equal_to_now_goes_to_tomorrow() {
    let p = parse_datetime("a las 12", monday_noon()).unwrap();
    // "a las 12" without "tarde"/"noche" means midnight.
    assert_eq!(p.due, Due::At { at: at(2024, 1, 16, 0, 0) });
    let p = parse_datetime("12:00", monday_noon()).unwrap();
    assert_eq!(p.due, Due::At { at: at(2024, 1, 16, 12, 0) });
}

#[test]
fn nothing_recognised_means_one_hour() {
    let p = parse_datetime("comprar pan", monday_noon()).unwrap();
    assert_eq!(p.due, Due::After { seconds: 3600 });
    assert_eq!(p.confidence_percent, 20);
    assert_eq!(p.expression, None);
}

#[test]
fn huge_span_does_not_fit() {
    assert!(parse_datetime("en 9000000000000000000 minutos", monday_noon()).is_none());
}

#[test]
fn unparsable_minutes_fall_back() {
    // Too large for i64: the minutes reading gives up and later readings are tried.
    let p = parse_datetime("en 99999999999999999999 minutos", monday_noon()).unwrap();
    assert_eq!(p.confidence_percent, 20);
}

#[test]
fn times_of_day() {
    assert_eq!(extract_time_from_text("a las 5 de la tarde"), Some(17 * 3600));
    assert_eq!(extract_time_from_text("a las 8 de la noche"), Some(20 * 3600));
    assert_eq!(extract_time_from_text("a las 7 de la mañana"), Some(7 * 3600));
    assert_eq!(extract_time_from_text("alas 10:45"), Some(10 * 3600 + 45 * 60));
    assert_eq!(extract_time_from_text("a las 12"), Some(0));
    assert_eq!(extract_time_from_text("a las 12 de la tarde"), Some(12 * 3600));
    assert_eq!(extract_time_from_text("a las 99:99"), Some(23 * 3600 + 59 * 60));
    assert_eq!(extract_time_from_text("7:05"), Some(7 * 3600 + 5 * 60));
    assert_eq!(extract_time_from_text("sin hora"), None);
}

#[test]
fn readings_are_well_formed() {
    for t in ["en 5 min", "mañana", "hoy a las 3", "el jueves", "en 2 dias", "a las 4", "nada"] {
        let r = read_lowercase(t);
        assert!([95, 90, 85, 80, 60, 20].contains(&r.confidence_percent));
        assert_eq!(r.expression.is_none(), r.confidence_percent == 20);
    }
}

#[test]
fn next_weekday_plan() {
    let now = monday_noon();
    for wd in 0..7u32 {
        match due_of(DuePlan::NextWeekday { weekday: wd, second: 0 }, now) {
            Some(Due::At { at }) => {
                assert!(at.day > now.day && at.day <= now.day + 7);
                let date = chrono::NaiveDate::from_num_days_from_ce_opt(at.day).unwrap();
                assert_eq!(date.weekday().num_days_from_monday(), wd);
            }
            _ => panic!("a weekday plan is always placed"),
        }
    }
}

#[test]
fn spans_multiply_units() {
    let now = monday_noon();
    assert_eq!(
        due_of(DuePlan::After { amount: 2, unit: TimeUnit::Days }, now),
        Some(Due::After { seconds: 172800 })
    );
    assert_eq!(due_of(DuePlan::After { amount: i64::MAX, unit: TimeUnit::Weeks }, now), None);
}

#[test]
fn titles() {
    assert_eq!(extract_title("comprar leche mañana a las 9", &Some("mañana".to_string())), "comprar leche   9");
    assert_eq!(extract_title("mañana", &Some("mañana".to_string())), "Recordatorio");
    assert_eq!(extract_title("", &None), "Recordatorio");
    assert_eq!(extract_title("llamar", &None), "llamar");
    assert_eq!(extract_title("x", &Some(String::new())), "x");
}

fn clock_at(t: LocalDateTime) -> Clock {
    let naive = chrono::NaiveDate::from_num_days_from_ce_opt(t.day)
        .unwrap()
        .and_hms_opt(t.second / 3600, (t.second % 3600) / 60, t.second % 60)
        .unwrap();
    let local = naive.and_local_timezone(chrono::Local).single().unwrap();
    Clock { utc_seconds: local.timestamp(), utc_nanos: 0, local: t }
}

#[test]
fn whole_phrase() {
    let clock = clock_at(monday_noon());
    let p = parse_reminder_text_at("  recuérdame comprar leche mañana a las 9  ", &clock).unwrap();
    assert_eq!(p.title, "comprar leche   9");
    assert_eq!(p.original_text, "recuérdame comprar leche mañana a las 9");
    assert_eq!(p.confidence_percent, 85);
    assert_eq!(p.parsed_time_expression.as_deref(), Some("mañana"));
    assert_eq!(p.due_at, "2024-01-16T09:00:00");
}

#[test]
fn whole_phrase_relative_due_text() {
    let clock = clock_at(monday_noon());
    let p = parse_reminder_text_at("reunión en 30 minutos", &clock).unwrap();
    assert_eq!(p.title, "reunión");
    let expected = (chrono::DateTime::from_timestamp(clock.utc_seconds, 0).unwrap().with_timezone(&chrono::Local)
        + chrono::TimeDelta::minutes(30))
    .format("%Y-%m-%dT%H:%M:%S")
    .to_string();
    assert_eq!(p.due_at, expected);
}

#[test]
fn words_that_only_ask_are_dropped() {
    let clock = clock_at(monday_noon());
    let p = parse_reminder_text_at("RECORDAR que pagar la luz", &clock).unwrap();
    assert_eq!(p.title, "pagar la luz");
    assert_eq!(p.confidence_percent, 20);
    assert_eq!(p.parsed_time_expression, None);
}

#[test]
fn title_never_empty() {
    let clock = clock_at(monday_noon());
    for t in ["", "   ", "recuérdame", "mañana a las", "en 5 minutos"] {
        let p = parse_reminder_text_at(t, &clock).unwrap();
        assert!(!p.title.is_empty());
        assert_eq!(p.title.trim(), p.title);
    }
}

#[test]
fn parse_with_the_real_clock() {
    let p = parse_reminder_text("llamar al dentista el lunes a las 3pm").unwrap();
    assert_eq!(p.parsed_time_expression.as_deref(), Some("lunes"));
    assert_eq!(p.due_at.len(), 19);
}

#[test]
fn clock_near_end_of_calendar_is_refused() {
    let t = LocalDateTime { day: LAST_DAY - 3, second: 0 };
    let clock = Clock { utc_seconds: 0, utc_nanos: 0, local: t };
    assert!(parse_reminder_text_at("el lunes a las 3", &clock).is_none());
    assert!(parse_reminder_text_at("mañana a las 3", &Clock {
        local: LocalDateTime { day: LAST_DAY, second: 0 },
        ..clock
    })
    .is_none());
}

#[test]
fn relative_phrase_near_end_of_calendar_is_placed() {
    let t = LocalDateTime { day: LAST_DAY - 3, second: 0 };
    let clock = Clock { utc_seconds: 1_700_000_000, utc_nanos: 0, local: t };
    assert!(parse_reminder_text_at("llamar en 10 minutos", &clock).is_some());
}

fn has_timestamp_shape(s: &str) -> bool {
    let b: Vec<char> = s.chars().collect();
    b.len() == 19
        && b[4] == '-'
        && b[7] == '-'
        && b[10] == 'T'
        && b[13] == ':'
        && b[16] == ':'
        && b.iter().enumerate().all(|(i, c)| [4, 7, 10, 13, 16].contains(&i) || c.is_ascii_digit())
}

#[test]
fn wall_clock_time_renders_as_itself() {
    let s = render_due(&clock_at(monday_noon()), Due::At { at: at(2024, 3, 5, 10, 30) }).unwrap();
    assert_eq!(s, "2024-03-05T10:30:00");
}

#[test]
fn wall_clock_time_outside_the_calendar_is_not_rendered() {
    let r = render_due(
        &clock_at(monday_noon()),
        Due::At { at: LocalDateTime { day: LAST_DAY, second: 86400 } },
    );
    assert!(r.is_none());
}

#[test]
fn span_in_range_is_always_rendered() {
    let clock = Clock {
        utc_seconds: 1_700_000_000,
        utc_nanos: 0,
        local: monday_noon(),
    };
    let s = render_due(&clock, Due::After { seconds: 300 }).unwrap();
    assert!(has_timestamp_shape(&s));
}

#[test]
fn span_beyond_a_time_delta_is_not_rendered() {
    let clock = Clock { utc_seconds: 1_700_000_000, utc_nanos: 0, local: monday_noon() };
    assert!(render_due(&clock, Due::After { seconds: i64::MAX }).is_none());
}

#[test]
fn relative_phrase_at_a_clock_is_placed() {
    let clock = Clock { utc_seconds: 1_700_000_000, utc_nanos: 0, local: monday_noon() };
    let p = parse_reminder_text_at("llamar en 10 minutos", &clock).unwrap();
    assert!(has_timestamp_shape(&p.due_at));
}

#[test]
fn overflowing_span_is_refused_at_any_clock() {
    assert!(parse_reminder_text("avisar en 9000000000000000 horas").is_none());
}

#[test]
fn parsed_due_has_timestamp_shape() {
    if let Some(p) = parse_reminder_text("comprar pan en 5 minutos") {
        assert!(has_timestamp_shape(&p.due_at));
    }
}

// Wednesday, January 15, 2025, at 10:00.
fn wednesday_ten() -> Clock {
    clock_at(at(2025, 1, 15, 10, 0))
}

#[test]
fn weekday_with_pm_hour() {
    let p = parse_reminder_text_at("Llamar al dentista el lunes a las 3pm", &wednesday_ten()).unwrap();
    assert_eq!(p.due_at, "2025-01-20T15:00:00");
    assert_eq!(p.parsed_time_expression.as_deref(), Some("lunes"));
    assert_eq!(p.confidence_percent, 80);
    assert_eq!(p.repeat_interval_seconds, None);
}

#[test]
fn am_hour_and_daily_repetition() {
    let p = parse_reminder_text_at("Ejercicio cada día a las 7am", &wednesday_ten()).unwrap();
    assert_eq!(p.due_at, "2025-01-16T07:00:00");
    assert_eq!(p.parsed_time_expression.as_deref(), Some("cada día"));
    assert_eq!(p.repeat_interval_seconds, Some(86400));
    assert!(p.confidence_percent > 20);
}

#[test]
fn repetitions_are_recognised() {
    for (text, every) in [("cada hora", 3600), ("cada 30 minutos", 1800), ("cada día", 86400)] {
        let p = parse_reminder_text_at(text, &wednesday_ten()).unwrap();
        assert!(p.parsed_time_expression.is_some(), "{}", text);
        assert!(p.confidence_percent > 20, "{}", text);
        assert_eq!(p.repeat_interval_seconds, Some(every), "{}", text);
    }
    let p = parse_datetime("cada 30 minutos", at(2025, 1, 15, 10, 0)).unwrap();
    assert_eq!(p.due, Due::After { seconds: 1800 });
}

#[test]
fn morning_hour_today_is_today() {
    let p = parse_reminder_text_at("hoy a las 11 de la mañana", &wednesday_ten()).unwrap();
    assert_eq!(p.due_at, "2025-01-15T11:00:00");
    assert_eq!(p.parsed_time_expression.as_deref(), Some("hoy"));
    let p = parse_reminder_text_at("mañana a las 8 de la mañana", &wednesday_ten()).unwrap();
    assert_eq!(p.due_at, "2025-01-16T08:00:00");
}

#[test]
fn times_with_am_pm() {
    assert_eq!(extract_time_from_text("a las 3pm"), Some(15 * 3600));
    assert_eq!(extract_time_from_text("a las 7am"), Some(7 * 3600));
    assert_eq!(extract_time_from_text("a las 12pm"), Some(12 * 3600));
    assert_eq!(extract_time_from_text("a las 7 amigos"), Some(7 * 3600));
}

// The calendar arithmetic that `clock::civil_date` states, step for step.
fn civil_date(day: i64) -> (i64, i64, i64) {
    let z = day + 305;
    let era = z / 146097;
    let doe = z - era * 146097;
    let yoe = (doe - doe / 1460 + doe / 36524 - doe / 146096) / 365;
    let doy = doe - (365 * yoe + yoe / 4 - yoe / 100);
    let mp = (5 * doy + 2) / 153;
    let d = doy - (153 * mp + 2) / 5 + 1;
    let m = if mp < 10 { mp + 3 } else { mp - 9 };
    let y = yoe + era * 400 + if m <= 2 { 1 } else { 0 };
    (y, m, d)
}

#[test]
fn rendered_dates_follow_the_stated_calendar() {
    let mut days: Vec<i64> = (1..=3_652_059).step_by(977).collect();
    days.extend([1, 59, 60, 61, 365, 366, 730_119, 730_120, 738_900, 3_652_059]);
    for day in days {
        let date = chrono::NaiveDate::from_num_days_from_ce_opt(day as i32).unwrap();
        let (y, m, d) = civil_date(day);
        assert_eq!((y, m, d), (date.year() as i64, date.month() as i64, date.day() as i64), "{}", day);
        let text = date.and_hms_opt(0, 0, 0).unwrap().format("%Y-%m-%dT%H:%M:%S").to_string();
        assert_eq!(text, format!("{:04}-{:02}-{:02}T00:00:00", y, m, d));
    }
}

#[test]
fn rendered_time_parses_back() {
    let at = LocalDateTime { day: 738_900, second: 37_845 };
    let s = render_due(&clock_at(at), Due::At { at }).unwrap();
    let back = chrono::NaiveDateTime::parse_from_str(&s, "%Y-%m-%dT%H:%M:%S").unwrap();
    assert_eq!(back.num_days_from_ce(), at.day);
}
