//! Global keyboard shortcuts: reading accelerator texts such as "Ctrl+Alt+R",
//! choosing which stored shortcuts to register, and what each shortcut does.
use crate::pattern::{lowercase, lowercased};
use crate::store::Shortcut;
use crate::text::{
    all_ascii_digits, ascii_lowered, chars_are, chars_of, is_ascii_text, digit_value, digits_value, push_str, split_char, split_on, string_of, trim,
    trimmed,
};
use vstd::prelude::*;

verus! {

broadcast use vstd::string::group_string_axioms;

/// The modifier keys of an accelerator.
#[derive(Clone, Copy, Debug, PartialEq, Eq, Structural)]
pub struct Modifiers {
    pub control: bool,
    pub alt: bool,
    pub shift: bool,
    pub super_key: bool,
}

/// The main key of an accelerator.
#[derive(Clone, Copy, Debug, PartialEq, Eq, Structural)]
pub enum KeyCode {
    /// A letter key, given by its lower-case letter `a`..`z`.
    Letter(char),
    /// A function key F1..F12.
    Function(u8),
    Space,
    Enter,
    Escape,
    Tab,
    Delete,
    Backspace,
    ArrowUp,
    ArrowDown,
    ArrowLeft,
    ArrowRight,
}

/// A parsed accelerator: modifiers and one key.
#[derive(Clone, Copy, Debug, PartialEq, Eq, Structural)]
pub struct Accelerator {
    pub modifiers: Modifiers,
    pub key: KeyCode,
}

pub open spec fn no_modifiers() -> Modifiers {
    Modifiers { control: false, alt: false, shift: false, super_key: false }
}

/// The number of a function-key name's digits: "1" to "12", no sign, no
/// leading zero.
pub open spec fn function_key_number(digits: Seq<char>) -> Option<u8> {
    if 1 <= digits.len() <= 2 && all_ascii_digits(digits) && digits[0] != '0' && 1 <= digits_value(
        digits,
    ) <= 12 {
        Some(digits_value(digits) as u8)
    } else {
        None
    }
}

/// The key a lower-case key name stands for.
pub open spec fn key_code_of(n: Seq<char>) -> Option<KeyCode> {
    if n.len() == 1 && 'a' <= n[0] <= 'z' {
        Some(KeyCode::Letter(n[0]))
    } else if n.len() >= 2 && n[0] == 'f' && function_key_number(n.drop_first()) is Some {
        Some(KeyCode::Function(function_key_number(n.drop_first())->0))
    } else if n == "space"@ {
        Some(KeyCode::Space)
    } else if n == "enter"@ || n == "return"@ {
        Some(KeyCode::Enter)
    } else if n == "escape"@ || n == "esc"@ {
        Some(KeyCode::Escape)
    } else if n == "tab"@ {
        Some(KeyCode::Tab)
    } else if n == "delete"@ || n == "del"@ {
        Some(KeyCode::Delete)
    } else if n == "backspace"@ {
        Some(KeyCode::Backspace)
    } else if n == "up"@ {
        Some(KeyCode::ArrowUp)
    } else if n == "down"@ {
        Some(KeyCode::ArrowDown)
    } else if n == "left"@ {
        Some(KeyCode::ArrowLeft)
    } else if n == "right"@ {
        Some(KeyCode::ArrowRight)
    } else {
        None
    }
}

/// The effect of one `+`-separated token (already trimmed and lower-cased)
/// on the modifiers and key read so far; an unknown key is an error.
pub open spec fn token_step(state: (Modifiers, Option<KeyCode>), token: Seq<char>) -> Result<
    (Modifiers, Option<KeyCode>),
    Seq<char>,
> {
    let m = state.0;
    if token == "ctrl"@ || token == "control"@ {
        Ok((Modifiers { control: true, ..m }, state.1))
    } else if token == "alt"@ {
        Ok((Modifiers { alt: true, ..m }, state.1))
    } else if token == "shift"@ {
        Ok((Modifiers { shift: true, ..m }, state.1))
    } else if token == "super"@ || token == "win"@ || token == "cmd"@ || token == "meta"@ {
        Ok((Modifiers { super_key: true, ..m }, state.1))
    } else {
        match key_code_of(token) {
            Some(k) => Ok((m, Some(k))),
            None => Err("Unknown key: "@ + token),
        }
    }
}

/// The token a piece of an accelerator text stands for.
pub open spec fn token_of(piece: Seq<char>) -> Seq<char> {
    if is_ascii_text(trim(piece)) {
        ascii_lowered(trim(piece))
    } else {
        lowercased(trim(piece))
    }
}

/// The modifiers and key read from the first `i` pieces.
pub open spec fn read_pieces(pieces: Seq<Seq<char>>, i: int) -> Result<
    (Modifiers, Option<KeyCode>),
    Seq<char>,
>
    decreases i,
{
    if i <= 0 {
        Ok((no_modifiers(), None))
    } else {
        match read_pieces(pieces, i - 1) {
            Err(e) => Err(e),
            Ok(st) => token_step(st, token_of(pieces[i - 1])),
        }
    }
}

proof fn lemma_read_pieces_stays_failed(pieces: Seq<Seq<char>>, i: int, j: int)
    requires
        1 <= i <= j,
        read_pieces(pieces, i) is Err,
    ensures
        read_pieces(pieces, j) == read_pieces(pieces, i),
    decreases j - i,
{
    if j > i {
        lemma_read_pieces_stays_failed(pieces, i, j - 1);
    }
}

/// A token that sets a modifier.
pub open spec fn is_modifier_token(t: Seq<char>) -> bool {
    t == "ctrl"@ || t == "control"@ || t == "alt"@ || t == "shift"@ || t == "super"@ || t
        == "win"@ || t == "cmd"@ || t == "meta"@
}

/// Reading pieces depends only on the pieces read.
proof fn lemma_read_pieces_prefix(p1: Seq<Seq<char>>, p2: Seq<Seq<char>>, i: int)
    requires
        forall|j: int| 0 <= j < i ==> p1[j] == p2[j],
    ensures
        read_pieces(p1, i) == read_pieces(p2, i),
    decreases i,
{
    if i > 0 {
        lemma_read_pieces_prefix(p1, p2, i - 1);
    }
}

/// Modifiers may be named in any order: swapping two neighbouring pieces
/// that both name modifiers does not change what the pieces read as.
pub proof fn lemma_modifier_order(pieces: Seq<Seq<char>>, k: int, n: int)
    requires
        0 <= k,
        k + 2 <= n <= pieces.len(),
        is_modifier_token(token_of(pieces[k])),
        is_modifier_token(token_of(pieces[k + 1])),
    ensures
        read_pieces(pieces.update(k, pieces[k + 1]).update(k + 1, pieces[k]), n) == read_pieces(
            pieces,
            n,
        ),
    decreases n,
{
    let swapped = pieces.update(k, pieces[k + 1]).update(k + 1, pieces[k]);
    if n == k + 2 {
        lemma_read_pieces_prefix(swapped, pieces, k);
        assert(swapped[k] == pieces[k + 1] && swapped[k + 1] == pieces[k]);
        assert(read_pieces(swapped, k + 1) == match read_pieces(pieces, k) {
            Err(e) => Err(e),
            Ok(st) => token_step(st, token_of(pieces[k + 1])),
        });
        assert(read_pieces(pieces, k + 1) == match read_pieces(pieces, k) {
            Err(e) => Err(e),
            Ok(st) => token_step(st, token_of(pieces[k])),
        });
    } else {
        lemma_modifier_order(pieces, k, n - 1);
        assert(swapped[n - 1] == pieces[n - 1]);
    }
}

/// Reading pieces depends only on the tokens they stand for.
proof fn lemma_read_same_tokens(p1: Seq<Seq<char>>, p2: Seq<Seq<char>>, i: int)
    requires
        forall|j: int| 0 <= j < i ==> token_of(p1[j]) == token_of(p2[j]),
    ensures
        read_pieces(p1, i) == read_pieces(p2, i),
    decreases i,
{
    if i > 0 {
        lemma_read_same_tokens(p1, p2, i - 1);
    }
}

/// Letter case and spaces around the `+`-separated pieces do not matter: two
/// accelerator texts whose pieces, once trimmed, are ASCII and equal but for
/// the case of their letters read the same.
pub proof fn lemma_case_and_spaces(s1: Seq<char>, s2: Seq<char>)
    requires
        split_on(s1, '+').len() == split_on(s2, '+').len(),
        forall|j: int|
            0 <= j < split_on(s1, '+').len() ==> {
                &&& is_ascii_text(trim(#[trigger] split_on(s1, '+')[j]))
                &&& is_ascii_text(trim(split_on(s2, '+')[j]))
                &&& ascii_lowered(trim(split_on(s1, '+')[j])) == ascii_lowered(
                    trim(split_on(s2, '+')[j]),
                )
            },
    ensures
        accelerator_spec(s1) == accelerator_spec(s2),
{
    let p1 = split_on(s1, '+');
    let p2 = split_on(s2, '+');
    assert forall|j: int| 0 <= j < p1.len() implies token_of(p1[j]) == token_of(p2[j]) by {
        assert(is_ascii_text(trim(p1[j])));
    }
    lemma_read_same_tokens(p1, p2, p1.len() as int);
}

/// What `parse_accelerator` makes of a text: its `+`-separated pieces,
/// trimmed and lower-cased, set modifiers, and the last key named wins; an
/// unknown key is reported, and so is a text that names no key.
pub open spec fn accelerator_spec(s: Seq<char>) -> Result<Accelerator, Seq<char>> {
    let pieces = split_on(s, '+');
    match read_pieces(pieces, pieces.len() as int) {
        Err(e) => Err(e),
        Ok((m, None)) => Err("No key specified in shortcut"@),
        Ok((m, Some(k))) => Ok(Accelerator { modifiers: m, key: k }),
    }
}

fn function_key(n: &Vec<char>) -> (r: Option<u8>)
    requires
        n@.len() >= 2,
        n@[0] == 'f',
    ensures
        r == function_key_number(n@.drop_first()),
{
    let len = n.len();
    if len > 3 {
        return None;
    }
    let d1 = n[1];
    if !('1' <= d1 && d1 <= '9') {
        return None;
    }
    let v1 = (d1 as u32 - '0' as u32) as u8;
    let ghost digits = n@.drop_first();
    assert(v1 == digit_value(d1));
    if len == 2 {
        assert(digits =~= seq![d1]);
        assert(digits.drop_last() =~= Seq::<char>::empty());
        assert(digits.last() == d1);
        assert(digits_value(digits.drop_last()) == 0);
        assert(digits_value(digits) == v1);
        return Some(v1);
    }
    let d2 = n[2];
    if !('0' <= d2 && d2 <= '9') {
        return None;
    }
    let v2 = (d2 as u32 - '0' as u32) as u8;
    assert(digits =~= seq![d1, d2]);
    assert(digits.drop_last() =~= seq![d1]);
    assert(digits.drop_last().drop_last() =~= Seq::<char>::empty());
    assert(digits.drop_last().last() == d1);
    assert(digits_value(digits.drop_last().drop_last()) == 0);
    assert(digits.last() == d2);
    assert(v2 == digit_value(d2));
    assert(digits_value(digits.drop_last()) == v1);
    assert(digits_value(digits) == v1 * 10 + v2);
    if v1 == 1 && v2 <= 2 {
        Some(10 + v2)
    } else {
        None
    }
}

/// The key named by a lower-case key name.
pub fn key_code(n: &Vec<char>) -> (r: Option<KeyCode>)
    ensures
        r == key_code_of(n@),
{
    if n.len() == 1 && 'a' <= n[0] && n[0] <= 'z' {
        return Some(KeyCode::Letter(n[0]));
    }
    if n.len() >= 2 && n[0] == 'f' {
        if let Some(k) = function_key(n) {
            return Some(KeyCode::Function(k));
        }
    }
    if chars_are(n, "space") {
        Some(KeyCode::Space)
    } else if chars_are(n, "enter") || chars_are(n, "return") {
        Some(KeyCode::Enter)
    } else if chars_are(n, "escape") || chars_are(n, "esc") {
        Some(KeyCode::Escape)
    } else if chars_are(n, "tab") {
        Some(KeyCode::Tab)
    } else if chars_are(n, "delete") || chars_are(n, "del") {
        Some(KeyCode::Delete)
    } else if chars_are(n, "backspace") {
        Some(KeyCode::Backspace)
    } else if chars_are(n, "up") {
        Some(KeyCode::ArrowUp)
    } else if chars_are(n, "down") {
        Some(KeyCode::ArrowDown)
    } else if chars_are(n, "left") {
        Some(KeyCode::ArrowLeft)
    } else if chars_are(n, "right") {
        Some(KeyCode::ArrowRight)
    } else {
        proof {
            reveal_strlit("space");
            reveal_strlit("enter");
            reveal_strlit("return");
            reveal_strlit("escape");
            reveal_strlit("esc");
            reveal_strlit("tab");
            reveal_strlit("delete");
            reveal_strlit("del");
            reveal_strlit("backspace");
            reveal_strlit("up");
            reveal_strlit("down");
            reveal_strlit("left");
            reveal_strlit("right");
        }
        None
    }
}

fn apply_token(m: Modifiers, key: Option<KeyCode>, token: &Vec<char>) -> (r: Result<
    (Modifiers, Option<KeyCode>),
    String,
>)
    ensures
        match r {
            Ok(st) => token_step((m, key), token@) == Ok::<(Modifiers, Option<KeyCode>), Seq<char>>(st),
            Err(e) => token_step((m, key), token@) == Err::<(Modifiers, Option<KeyCode>), Seq<char>>(e@),
        },
{
    if chars_are(token, "ctrl") || chars_are(token, "control") {
        Ok((Modifiers { control: true, ..m }, key))
    } else if chars_are(token, "alt") {
        Ok((Modifiers { alt: true, ..m }, key))
    } else if chars_are(token, "shift") {
        Ok((Modifiers { shift: true, ..m }, key))
    } else if chars_are(token, "super") || chars_are(token, "win") || chars_are(token, "cmd") || chars_are(
        token,
        "meta",
    ) {
        Ok((Modifiers { super_key: true, ..m }, key))
    } else {
        match key_code(token) {
            Some(k) => Ok((m, Some(k))),
            None => {
                let mut msg: Vec<char> = Vec::new();
                push_str(&mut msg, "Unknown key: ");
                let n = token.len();
                let ghost start = msg@;
                for i in 0..n
                    invariant
                        n == token@.len(),
                        msg@ == start + token@.take(i as int),
                {
                    msg.push(token[i]);
                    assert(token@.take(i + 1) =~= token@.take(i as int).push(token@[i as int]));
                }
                assert(token@.take(n as int) =~= token@);
                Err(string_of(&msg))
            },
        }
    }
}

/// `parse_accelerator`: reads an accelerator text such as "Ctrl+Alt+R".
pub fn parse_accelerator(accel: &str) -> (r: Result<Accelerator, String>)
    ensures
        match r {
            Ok(a) => accelerator_spec(accel@) == Ok::<Accelerator, Seq<char>>(a),
            Err(e) => accelerator_spec(accel@) == Err::<Accelerator, Seq<char>>(e@),
        },
{
    let text = chars_of(accel);
    let pieces = split_char(&text, '+');
    let n = pieces.len();
    let mut m = Modifiers { control: false, alt: false, shift: false, super_key: false };
    let mut key: Option<KeyCode> = None;
    let mut i: usize = 0;
    while i < n
        invariant
            n == pieces@.len() == split_on(accel@, '+').len(),
            forall|k: int| 0 <= k < n ==> #[trigger] pieces@[k]@ == split_on(accel@, '+')[k],
            i <= n,
            read_pieces(split_on(accel@, '+'), i as int) == Ok::<
                (Modifiers, Option<KeyCode>),
                Seq<char>,
            >((m, key)),
        decreases n - i,
    {
        let piece = trimmed(&pieces[i]);
        let ps = string_of(&piece);
        let token = lowercase(ps.as_str());
        let tv = chars_of(token.as_str());
        match apply_token(m, key, &tv) {
            Ok((m2, k2)) => {
                m = m2;
                key = k2;
            },
            Err(e) => {
                proof {
                    lemma_read_pieces_stays_failed(split_on(accel@, '+'), i + 1, n as int);
                }
                return Err(e);
            },
        }
        i = i + 1;
    }
    match key {
        Some(k) => Ok(Accelerator { modifiers: m, key: k }),
        None => Err(crate::text::owned("No key specified in shortcut")),
    }
}

/// `check_shortcut_conflict`: an accelerator must join at least two pieces
/// with `+`; otherwise it lacks a modifier key.  A well-formed one is never
/// reported as a conflict.
pub fn check_shortcut_conflict(accelerator: &str) -> (r: Result<bool, String>)
    ensures
        split_on(accelerator@, '+').len() < 2 ==> r is Err && r->Err_0@
            == "Debe incluir al menos una tecla modificadora (Ctrl, Alt, Shift)"@,
        split_on(accelerator@, '+').len() >= 2 ==> r == Ok::<bool, String>(false),
{
    let text = chars_of(accelerator);
    let parts = split_char(&text, '+');
    if parts.len() < 2 {
        return Err(crate::text::owned("Debe incluir al menos una tecla modificadora (Ctrl, Alt, Shift)"));
    }
    Ok(false)
}

/// What a shortcut's action does when its keys are pressed.
#[derive(Clone, Copy, Debug, PartialEq, Eq, Structural)]
pub enum ShortcutAction {
    StartRecording,
    ToggleWindow,
    NewReminder,
    SnoozeLast,
    CompleteLast,
    Nothing,
}

pub open spec fn action_spec(name: Seq<char>) -> ShortcutAction {
    if name == "start_recording"@ {
        ShortcutAction::StartRecording
    } else if name == "toggle_window"@ {
        ShortcutAction::ToggleWindow
    } else if name == "new_reminder"@ {
        ShortcutAction::NewReminder
    } else if name == "snooze_last"@ {
        ShortcutAction::SnoozeLast
    } else if name == "complete_last"@ {
        ShortcutAction::CompleteLast
    } else {
        ShortcutAction::Nothing
    }
}

/// The behaviour bound to a stored action name; unknown names do nothing.
pub fn shortcut_action(name: &str) -> (r: ShortcutAction)
    ensures
        r == action_spec(name@),
{
    let v = chars_of(name);
    if chars_are(&v, "start_recording") {
        ShortcutAction::StartRecording
    } else if chars_are(&v, "toggle_window") {
        ShortcutAction::ToggleWindow
    } else if chars_are(&v, "new_reminder") {
        ShortcutAction::NewReminder
    } else if chars_are(&v, "snooze_last") {
        ShortcutAction::SnoozeLast
    } else if chars_are(&v, "complete_last") {
        ShortcutAction::CompleteLast
    } else {
        ShortcutAction::Nothing
    }
}

/// Minutes a reminder is put off by the snooze shortcut.
pub const SHORTCUT_SNOOZE_MINUTES: i32 = 5;

/// The metadata logged with events caused by a shortcut.
pub const SHORTCUT_EVENT_METADATA: &'static str = "{\"source\":\"shortcut\"}";

/// `register_all`'s choice: the enabled shortcuts, in their stored order.
pub fn enabled_shortcuts(all: &Vec<Shortcut>) -> (r: Vec<Shortcut>)
    ensures
        r@ == all@.filter(|s: Shortcut| s.enabled),
{
    let mut r: Vec<Shortcut> = Vec::new();
    let n = all.len();
    for i in 0..n
        invariant
            n == all@.len(),
            r@ == all@.take(i as int).filter(|s: Shortcut| s.enabled),
    {
        reveal_with_fuel(Seq::<_>::filter, 1);
        assert(all@.take(i + 1).drop_last() =~= all@.take(i as int));
        if all[i].enabled {
            r.push(all[i].copy());
        }
    }
    assert(all@.take(n as int) =~= all@);
    r
}

} // verus!
