use recordatorio::shortcuts::{
    check_shortcut_conflict, enabled_shortcuts, parse_accelerator, shortcut_action, Accelerator,
    KeyCode, Modifiers, ShortcutAction,
};
use recordatorio::store::Shortcut;

fn mods(control: bool, alt: bool, shift: bool, super_key: bool) -> Modifiers {
    Modifiers { control, alt, shift, super_key }
}

#[test]
fn default_accelerators_parse() {
    assert_eq!(
        parse_accelerator("Ctrl+Alt+R"),
        Ok(Accelerator { modifiers: mods(true, true, false, false), key: KeyCode::Letter('r') })
    );
    assert_eq!(
        parse_accelerator("Ctrl+Alt+D").unwrap().key,
        KeyCode::Letter('d')
    );
}

#[test]
fn pieces_are_trimmed_and_lowered() {
    assert_eq!(
        parse_accelerator(" control + SHIFT + f12 "),
        Ok(Accelerator { modifiers: mods(true, false, true, false), key: KeyCode::Function(12) })
    );
    assert_eq!(
        parse_accelerator("Cmd+Space"),
        Ok(Accelerator { modifiers: mods(false, false, false, true), key: KeyCode::Space })
    );
}

#[test]
fn named_keys() {
    let cases = [
        ("Alt+Enter", KeyCode::Enter),
        ("Alt+Return", KeyCode::Enter),
        ("Alt+Esc", KeyCode::Escape),
        ("Alt+Escape", KeyCode::Escape),
        ("Alt+Tab", KeyCode::Tab),
        ("Alt+Del", KeyCode::Delete),
        ("Alt+Delete", KeyCode::Delete),
        ("Alt+Backspace", KeyCode::Backspace),
        ("Alt+Up", KeyCode::ArrowUp),
        ("Alt+Down", KeyCode::ArrowDown),
        ("Alt+Left", KeyCode::ArrowLeft),
        ("Alt+Right", KeyCode::ArrowRight),
        ("Alt+F1", KeyCode::Function(1)),
        ("Alt+F9", KeyCode::Function(9)),
        ("Alt+F10", KeyCode::Function(10)),
        ("Win+Z", KeyCode::Letter('z')),
        ("Meta+a", KeyCode::Letter('a')),
    ];
    for (text, key) in cases {
        assert_eq!(parse_accelerator(text).unwrap().key, key, "{}", text);
    }
}

#[test]
fn last_key_wins() {
    assert_eq!(parse_accelerator("Ctrl+A+B").unwrap().key, KeyCode::Letter('b'));
}

#[test]
fn unknown_keys_are_reported() {
    assert_eq!(parse_accelerator("Ctrl+F13"), Err("Unknown key: f13".to_string()));
    assert_eq!(parse_accelerator("Ctrl+F0"), Err("Unknown key: f0".to_string()));
    assert_eq!(parse_accelerator("Ctrl+F01"), Err("Unknown key: f01".to_string()));
    assert_eq!(parse_accelerator("Ctrl+PageUp"), Err("Unknown key: pageup".to_string()));
    assert_eq!(parse_accelerator("Ctrl++"), Err("Unknown key: ".to_string()));
}

#[test]
fn a_key_is_required() {
    assert_eq!(parse_accelerator("Ctrl+Alt"), Err("No key specified in shortcut".to_string()));
    assert_eq!(parse_accelerator("Shift"), Err("No key specified in shortcut".to_string()));
}

#[test]
fn conflict_check() {
    assert_eq!(check_shortcut_conflict("Ctrl+R"), Ok(false));
    assert_eq!(
        check_shortcut_conflict("R"),
        Err("Debe incluir al menos una tecla modificadora (Ctrl, Alt, Shift)".to_string())
    );
    assert_eq!(check_shortcut_conflict("+"), Ok(false));
}

#[test]
fn actions() {
    assert_eq!(shortcut_action("start_recording"), ShortcutAction::StartRecording);
    assert_eq!(shortcut_action("toggle_window"), ShortcutAction::ToggleWindow);
    assert_eq!(shortcut_action("new_reminder"), ShortcutAction::NewReminder);
    assert_eq!(shortcut_action("snooze_last"), ShortcutAction::SnoozeLast);
    assert_eq!(shortcut_action("complete_last"), ShortcutAction::CompleteLast);
    assert_eq!(shortcut_action("other"), ShortcutAction::Nothing);
}

fn sc(action: &str, enabled: bool) -> Shortcut {
    Shortcut {
        id: format!("id-{}", action),
        action: action.to_string(),
        accelerator: "Ctrl+Alt+X".to_string(),
        enabled,
        created_at: "2024-01-01T00:00:00".to_string(),
        updated_at: "2024-01-01T00:00:00".to_string(),
    }
}

#[test]
fn only_enabled_shortcuts_are_registered() {
    let all = vec![sc("a", true), sc("b", false), sc("c", true)];
    let chosen = enabled_shortcuts(&all);
    let actions: Vec<&str> = chosen.iter().map(|s| s.action.as_str()).collect();
    assert_eq!(actions, vec!["a", "c"]);
}

#[test]
fn modifier_order_does_not_matter() {
    assert_eq!(parse_accelerator("Alt+Ctrl+R"), parse_accelerator("Ctrl+Alt+R"));
    assert_eq!(parse_accelerator("Shift+Super+F5"), parse_accelerator("Super+Shift+F5"));
}

#[test]
fn letter_case_and_spaces_do_not_matter() {
    assert_eq!(parse_accelerator(" ctrl + ALT+r "), parse_accelerator("Ctrl+Alt+R"));
    assert_eq!(parse_accelerator("SHIFT+f5"), parse_accelerator("Shift+F5"));
}
