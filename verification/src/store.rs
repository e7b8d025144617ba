//! The reminder store: its records, its default contents, the choice between
//! the local SQLite file and the shared SQL Server, and the statements each
//! operation sends to either.  Executing them is I/O and happens outside the
//! library; what is sent, with which parameters, is decided here.
use crate::clock::{after_in_range, lemma_near_is_timestamp, is_timestamp_text, renders_near, naive_text, renders, within_a_day, epoch_position, LocalDateTime, FIRST_DAY, LAST_DAY, local_text_after, read_clock, Clock};
use crate::text::{ascii_lower, chars_of, is_ascii_letter, push_str, string_of};
use vstd::prelude::*;

verus! {

broadcast use vstd::string::group_string_axioms;

// ---------------------------------------------------------------------------
// Records
// ---------------------------------------------------------------------------

#[derive(Debug)]
pub struct Reminder {
    pub id: String,
    pub title: String,
    pub description: Option<String>,
    pub original_text: Option<String>,
    pub due_at: String,
    pub status: String,
    pub created_at: String,
    pub updated_at: String,
    pub notified_at: Option<String>,
    pub completed_at: Option<String>,
    pub cancelled_at: Option<String>,
    pub snooze_count: i32,
    pub last_snoozed_at: Option<String>,
    pub parsed_time_expression: Option<String>,
    pub source: String,
    pub repeat_interval_seconds: Option<i64>,
    pub created_by: Option<String>,
}

#[derive(Debug)]
pub struct AppSetting {
    pub key: String,
    pub value: String,
    pub updated_at: String,
}

#[derive(Debug)]
pub struct Shortcut {
    pub id: String,
    pub action: String,
    pub accelerator: String,
    pub enabled: bool,
    pub created_at: String,
    pub updated_at: String,
}

#[derive(Debug)]
pub struct NotificationEvent {
    pub id: String,
    pub reminder_id: String,
    pub event_type: String,
    pub created_at: String,
    pub metadata: Option<String>,
}

pub fn copy_text(s: &String) -> (r: String)
    ensures
        r == *s,
{
    s.clone()
}

pub fn copy_opt_text(s: &Option<String>) -> (r: Option<String>)
    ensures
        r == *s,
{
    match s {
        Some(t) => Some(t.clone()),
        None => None,
    }
}

impl Reminder {
    /// A field-by-field copy.
    pub fn copy(&self) -> (r: Reminder)
        ensures
            r == *self,
    {
        Reminder {
            id: copy_text(&self.id),
            title: copy_text(&self.title),
            description: copy_opt_text(&self.description),
            original_text: copy_opt_text(&self.original_text),
            due_at: copy_text(&self.due_at),
            status: copy_text(&self.status),
            created_at: copy_text(&self.created_at),
            updated_at: copy_text(&self.updated_at),
            notified_at: copy_opt_text(&self.notified_at),
            completed_at: copy_opt_text(&self.completed_at),
            cancelled_at: copy_opt_text(&self.cancelled_at),
            snooze_count: self.snooze_count,
            last_snoozed_at: copy_opt_text(&self.last_snoozed_at),
            parsed_time_expression: copy_opt_text(&self.parsed_time_expression),
            source: copy_text(&self.source),
            repeat_interval_seconds: self.repeat_interval_seconds,
            created_by: copy_opt_text(&self.created_by),
        }
    }
}

impl Shortcut {
    /// A field-by-field copy.
    pub fn copy(&self) -> (r: Shortcut)
        ensures
            r == *self,
    {
        Shortcut {
            id: copy_text(&self.id),
            action: copy_text(&self.action),
            accelerator: copy_text(&self.accelerator),
            enabled: self.enabled,
            created_at: copy_text(&self.created_at),
            updated_at: copy_text(&self.updated_at),
        }
    }
}

// ---------------------------------------------------------------------------
// Default contents
// ---------------------------------------------------------------------------

/// The settings a new store starts with, as (key, value).
pub open spec fn default_settings_spec() -> Seq<(Seq<char>, Seq<char>)> {
    seq![
        ("autostart"@, "true"@),
        ("scheduler_interval_secs"@, "30"@),
        ("notification_sound_path"@, ""@),
        ("notify_before_minutes"@, "2"@),
        ("theme"@, "light"@),
        ("transcription_provider"@, "whisper"@),
        ("db_mode"@, "local"@),
    ]
}

pub open spec fn pair_view(p: (&'static str, &'static str)) -> (Seq<char>, Seq<char>) {
    (p.0@, p.1@)
}

pub fn default_settings() -> (r: Vec<(&'static str, &'static str)>)
    ensures
        r@.map_values(|p: (&'static str, &'static str)| pair_view(p)) == default_settings_spec(),
{
    let r = vec![
        ("autostart", "true"),
        ("scheduler_interval_secs", "30"),
        ("notification_sound_path", ""),
        ("notify_before_minutes", "2"),
        ("theme", "light"),
        ("transcription_provider", "whisper"),
        ("db_mode", "local"),
    ];
    assert(r@.map_values(|p: (&'static str, &'static str)| pair_view(p)) =~= default_settings_spec());
    r
}

/// The shortcuts a new store starts with, as (action, accelerator).
pub open spec fn default_shortcuts_spec() -> Seq<(Seq<char>, Seq<char>)> {
    seq![
        ("start_recording"@, "Ctrl+Alt+R"@),
        ("toggle_window"@, "Ctrl+Alt+O"@),
        ("new_reminder"@, "Ctrl+Alt+N"@),
        ("snooze_last"@, "Ctrl+Alt+S"@),
        ("complete_last"@, "Ctrl+Alt+D"@),
    ]
}

pub fn default_shortcuts() -> (r: Vec<(&'static str, &'static str)>)
    ensures
        r@.map_values(|p: (&'static str, &'static str)| pair_view(p)) == default_shortcuts_spec(),
{
    let r = vec![
        ("start_recording", "Ctrl+Alt+R"),
        ("toggle_window", "Ctrl+Alt+O"),
        ("new_reminder", "Ctrl+Alt+N"),
        ("snooze_last", "Ctrl+Alt+S"),
        ("complete_last", "Ctrl+Alt+D"),
    ];
    assert(r@.map_values(|p: (&'static str, &'static str)| pair_view(p)) =~= default_shortcuts_spec());
    r
}

// ---------------------------------------------------------------------------
// Local or shared store
// ---------------------------------------------------------------------------

/// Where reminders are kept: the local SQLite file or the shared SQL Server.
/// Settings, shortcuts and notification events are always local.
#[derive(Clone, Copy, Debug, PartialEq, Eq, Structural)]
pub enum Backend {
    Local,
    Remote,
}

/// Whether `tiberius::Config::from_ado_string` accepts `s`: a function of the
/// text alone (it parses the string and reads nothing else).
pub uninterp spec fn ado_string_parses(s: Seq<char>) -> bool;

/// The ASCII letters of a text, in order; everything else is dropped.
pub open spec fn ascii_letters(s: Seq<char>) -> Seq<char>
    decreases s.len(),
{
    if s.len() == 0 {
        Seq::empty()
    } else {
        ascii_letters(s.drop_last()) + if is_ascii_letter(s.last()) {
            seq![s.last()]
        } else {
            Seq::<char>::empty()
        }
    }
}

/// The lower-case word `p` stands at `i` in `f`, ignoring ASCII case.
pub open spec fn occurs_ci_at(f: Seq<char>, p: Seq<char>, i: int) -> bool {
    &&& 0 <= i
    &&& i + p.len() <= f.len()
    &&& forall|t: int| 0 <= t < p.len() ==> ascii_lower(#[trigger] f[i + t]) == p[t]
}

pub const TRUST_KEY: &'static str = "trustservercertificate";

/// The text may name both `TrustServerCertificate` and
/// `TrustServerCertificateCA`: its ASCII letters hold
/// "trustservercertificate", in any case, at two places.  An ADO.NET key is
/// read from its characters with quotes, braces and line breaks dropped and
/// then lower-cased, so a key equal to either name leaves that word among the
/// text's letters; two keys leave it twice.
pub open spec fn may_name_both_trust_keys(s: Seq<char>) -> bool {
    exists|i: int, j: int|
        i < j && #[trigger] occurs_ci_at(ascii_letters(s), TRUST_KEY@, i) && #[trigger] occurs_ci_at(
            ascii_letters(s),
            TRUST_KEY@,
            j,
        )
}

fn ascii_letters_exec(s: &str) -> (r: Vec<char>)
    ensures
        r@ == ascii_letters(s@),
{
    let v = chars_of(s);
    let mut r: Vec<char> = Vec::new();
    let n = v.len();
    for k in 0..n
        invariant
            n == v@.len(),
            v@ == s@,
            r@ == ascii_letters(v@.take(k as int)),
    {
        let c = v[k];
        assert(v@.take(k + 1).drop_last() =~= v@.take(k as int));
        assert(v@.take(k + 1).last() == c);
        if ('a' <= c && c <= 'z') || ('A' <= c && c <= 'Z') {
            r.push(c);
        }
        assert(r@ =~= ascii_letters(v@.take(k + 1)));
    }
    assert(v@.take(n as int) =~= v@);
    r
}

fn matches_ci_at(f: &Vec<char>, p: &Vec<char>, i: usize) -> (b: bool)
    requires
        i + p@.len() <= f@.len(),
        forall|t: int| 0 <= t < p@.len() ==> 'a' <= #[trigger] p@[t] <= 'z',
    ensures
        b == occurs_ci_at(f@, p@, i as int),
{
    let m = p.len();
    let mut k: usize = 0;
    while k < m
        invariant
            m == p@.len(),
            i + m <= f@.len(),
            f@.len() == f.len(),
            k <= m,
            forall|t: int| 0 <= t < p@.len() ==> 'a' <= #[trigger] p@[t] <= 'z',
            forall|t: int| 0 <= t < k ==> ascii_lower(#[trigger] f@[i + t]) == p@[t],
        decreases m - k,
    {
        let c = f[i + k];
        let q = p[k];
        let same = if 'A' <= c && c <= 'Z' {
            (c as u32) + 32 == (q as u32)
        } else {
            c == q
        };
        if !same {
            assert(ascii_lower(f@[i + k]) != p@[k as int]);
            return false;
        }
        k = k + 1;
    }
    true
}

/// Whether a connection text may name both trust keys
/// (`may_name_both_trust_keys`).
pub fn names_both_trust_keys(conn: &str) -> (b: bool)
    ensures
        b == may_name_both_trust_keys(conn@),
{
    let f = ascii_letters_exec(conn);
    let p = chars_of(TRUST_KEY);
    proof {
        reveal_strlit("trustservercertificate");
    }
    let n = f.len();
    let m = p.len();
    if m > n {
        assert forall|i: int, j: int|
            !(i < j && occurs_ci_at(f@, p@, i) && occurs_ci_at(f@, p@, j)) by {}
        return false;
    }
    let mut first: Option<usize> = None;
    let mut k: usize = 0;
    while k <= n - m
        invariant
            n == f@.len(),
            k <= n - m + 1,
            m == 22,
            m == p@.len(),
            p@ == TRUST_KEY@,
            forall|t: int| 0 <= t < p@.len() ==> 'a' <= #[trigger] p@[t] <= 'z',
            m <= n,
            k <= n,
            f@ == ascii_letters(conn@),
            match first {
                None => forall|t: int| 0 <= t < k ==> !occurs_ci_at(f@, p@, t),
                Some(a) => a < k && occurs_ci_at(f@, p@, a as int) && forall|t: int|
                    0 <= t < k && t != a ==> !occurs_ci_at(f@, p@, t),
            },
        decreases n - k,
    {
        if matches_ci_at(&f, &p, k) {
            if first.is_some() {
                return true;
            }
            first = Some(k);
        }
        k = k + 1;
    }
    assert forall|i: int, j: int|
        !(i < j && occurs_ci_at(f@, p@, i) && occurs_ci_at(f@, p@, j)) by {
        if occurs_ci_at(f@, p@, j) {
            assert(j + m <= n);
        }
    }
    false
}

/// `tiberius::Config::from_ado_string(conn)` succeeds: the claim is only that
/// its outcome is the one `ado_string_parses` names for that text.  A text
/// naming both trust keys makes it panic (`Config::trust_cert_ca` after
/// `trust_cert`), so such texts are left out.
#[verifier::external_body]
pub(crate) fn ado_config_accepted(conn: &str) -> (r: bool)
    requires
        !may_name_both_trust_keys(conn@),
    ensures
        r == ado_string_parses(conn@),
{
    tiberius::Config::from_ado_string(conn).is_ok()
}

/// The store's mode: whether the shared server is configured and whether it
/// is in use.  It is only ever in use when configured.
#[derive(Clone, Copy, Debug, PartialEq, Eq, Structural)]
pub struct DbMode {
    pub remote_configured: bool,
    pub use_remote: bool,
}

impl DbMode {
    pub open spec fn wf(self) -> bool {
        self.use_remote ==> self.remote_configured
    }

    /// Where reminder operations go in this mode.
    pub open spec fn backend_spec(self) -> Backend {
        if self.use_remote && self.remote_configured {
            Backend::Remote
        } else {
            Backend::Local
        }
    }

    /// The mode's name: "compartido" when reminders go to the shared server.
    pub open spec fn name(self) -> Seq<char> {
        if self.backend_spec() == Backend::Remote {
            "compartido"@
        } else {
            "local"@
        }
    }

    /// The mode after asking for `mode`, and what the request answers: the
    /// value to store as the `db_mode` setting, or why it was refused.
    pub open spec fn after_request(self, mode: Seq<char>) -> (DbMode, Result<Seq<char>, Seq<char>>) {
        if mode == "local"@ {
            (DbMode { use_remote: false, ..self }, Ok("local"@))
        } else if mode == "compartido"@ {
            if self.remote_configured {
                (DbMode { use_remote: true, ..self }, Ok("compartido"@))
            } else {
                (self, Err("No hay configuración de SQL Server disponible"@))
            }
        } else {
            (self, Err("Modo inválido: "@ + mode))
        }
    }

    /// The mode a store opens in: shared when the stored `db_mode` setting
    /// says "compartido" and a server is configured, else local.
    pub fn opening(remote_configured: bool, stored_mode: &Option<String>) -> (r: DbMode)
        ensures
            r.wf(),
            r.remote_configured == remote_configured,
            r.use_remote == (remote_configured && match stored_mode {
                Some(m) => m@ == "compartido"@,
                None => false,
            }),
    {
        let shared = match stored_mode {
            Some(m) => text_equals(m.as_str(), "compartido"),
            None => false,
        };
        DbMode { remote_configured, use_remote: shared && remote_configured }
    }

    /// `Database::new`'s mode: the shared server is configured when a
    /// connection string is given and `tiberius` accepts it as an ADO.NET
    /// connection string; the stored `db_mode` setting then picks the store
    /// as `opening` does.  A text that may name both trust keys (on which
    /// `tiberius` panics) is not used.
    pub fn opening_from(conn: &Option<String>, stored_mode: &Option<String>) -> (r: DbMode)
        ensures
            r.wf(),
            r.remote_configured == (match conn {
                Some(s) => !may_name_both_trust_keys(s@) && ado_string_parses(s@),
                None => false,
            }),
            r.use_remote == (r.remote_configured && match stored_mode {
                Some(m) => m@ == "compartido"@,
                None => false,
            }),
    {
        let configured = match conn {
            Some(s) => !names_both_trust_keys(s.as_str()) && ado_config_accepted(s.as_str()),
            None => false,
        };
        DbMode::opening(configured, stored_mode)
    }

    /// Which store reminder operations go to.
    pub fn backend(&self) -> (r: Backend)
        ensures
            r == self.backend_spec(),
    {
        if self.use_remote && self.remote_configured {
            Backend::Remote
        } else {
            Backend::Local
        }
    }

    /// `get_db_mode`: "compartido" when reminders go to the shared server,
    /// else "local".
    pub fn get_db_mode(&self) -> (r: String)
        ensures
            r@ == self.name(),
    {
        if self.use_remote && self.remote_configured {
            crate::text::owned("compartido")
        } else {
            crate::text::owned("local")
        }
    }

    /// `set_db_mode`: "local" always succeeds; "compartido" needs a configured
    /// server; anything else is refused.  On success the mode changes and the
    /// returned text is the value to store as the `db_mode` setting; on
    /// failure the mode is unchanged.
    pub fn set_db_mode(&mut self, mode: &str) -> (r: Result<String, String>)
        requires
            old(self).wf(),
        ensures
            final(self).wf(),
            *final(self) == old(self).after_request(mode@).0,
            match r {
                Ok(v) => old(self).after_request(mode@).1 == Ok::<Seq<char>, Seq<char>>(v@),
                Err(e) => old(self).after_request(mode@).1 == Err::<Seq<char>, Seq<char>>(e@),
            },
    {
        proof {
            reveal_strlit("local");
            reveal_strlit("compartido");
        }
        if text_equals(mode, "local") {
            self.use_remote = false;
            Ok(crate::text::owned("local"))
        } else if text_equals(mode, "compartido") {
            if !self.remote_configured {
                return Err(crate::text::owned("No hay configuración de SQL Server disponible"));
            }
            self.use_remote = true;
            Ok(crate::text::owned("compartido"))
        } else {
            let mut msg: Vec<char> = Vec::new();
            push_str(&mut msg, "Modo inválido: ");
            push_str(&mut msg, mode);
            Err(string_of(&msg))
        }
    }
}

/// A mode change that succeeds is what the mode then reports; one that is
/// refused leaves the mode as it was; and the shared server is never in use
/// without being configured.
pub proof fn lemma_mode_request(m: DbMode, mode: Seq<char>)
    requires
        m.wf(),
    ensures
        m.after_request(mode).0.wf(),
        m.after_request(mode).1 matches Ok(v) ==> m.after_request(mode).0.name() == v && v == mode,
        m.after_request(mode).1 is Err ==> m.after_request(mode).0 == m,
        m.after_request(mode).0.remote_configured == m.remote_configured,
{
    reveal_strlit("local");
    reveal_strlit("compartido");
}

/// Whether two texts are equal.
pub fn text_equals(a: &str, b: &str) -> (r: bool)
    ensures
        r == (a@ == b@),
{
    let v = chars_of(a);
    crate::text::chars_are(&v, b)
}

// ---------------------------------------------------------------------------
// Statements
// ---------------------------------------------------------------------------

/// A parameter bound to a statement.
pub enum SqlValue {
    Text(String),
    Null,
    Int(i64),
}

pub enum SqlValueView {
    Text(Seq<char>),
    Null,
    Int(int),
}

pub open spec fn value_view(v: SqlValue) -> SqlValueView {
    match v {
        SqlValue::Text(s) => SqlValueView::Text(s@),
        SqlValue::Null => SqlValueView::Null,
        SqlValue::Int(i) => SqlValueView::Int(i as int),
    }
}

/// The parameter of an optional text: the text, or SQL `NULL`.
pub open spec fn opt_text_value(o: Option<Seq<char>>) -> SqlValueView {
    match o {
        Some(s) => SqlValueView::Text(s),
        None => SqlValueView::Null,
    }
}

pub open spec fn opt_view(o: Option<String>) -> Option<Seq<char>> {
    match o {
        Some(s) => Some(s@),
        None => None,
    }
}

pub open spec fn opt_int_value(o: Option<i64>) -> SqlValueView {
    match o {
        Some(i) => SqlValueView::Int(i as int),
        None => SqlValueView::Null,
    }
}

/// A statement: its SQL text and its parameters in order.
pub struct Statement {
    pub sql: String,
    pub params: Vec<SqlValue>,
}

impl Statement {
    pub open spec fn params_view(&self) -> Seq<SqlValueView> {
        self.params@.map_values(|v: SqlValue| value_view(v))
    }
}

fn text_value(s: &str) -> (r: SqlValue)
    ensures
        value_view(r) == SqlValueView::Text(s@),
{
    SqlValue::Text(crate::text::owned(s))
}

fn opt_text(o: &Option<String>) -> (r: SqlValue)
    ensures
        value_view(r) == opt_text_value(opt_view(*o)),
{
    match o {
        Some(s) => SqlValue::Text(s.clone()),
        None => SqlValue::Null,
    }
}

fn opt_str(o: Option<&str>) -> (r: SqlValue)
    ensures
        value_view(r) == opt_text_value(
            match o {
                Some(s) => Some(s@),
                None => None,
            },
        ),
{
    match o {
        Some(s) => text_value(s),
        None => SqlValue::Null,
    }
}

fn statement(sql: &str, params: Vec<SqlValue>) -> (r: Statement)
    ensures
        r.sql@ == sql@,
        r.params == params,
{
    Statement { sql: crate::text::owned(sql), params }
}

pub const REMINDER_COLUMNS: &'static str = "id, title, description, original_text, due_at, status, created_at, updated_at, notified_at, completed_at, cancelled_at, snooze_count, last_snoozed_at, parsed_time_expression, source, repeat_interval_seconds, created_by";

pub const LOCAL_INSERT_REMINDER: &'static str = "INSERT INTO reminders (id, title, description, original_text, due_at, status, created_at, updated_at, snooze_count, source, parsed_time_expression, repeat_interval_seconds, created_by) VALUES (?1, ?2, ?3, ?4, ?5, ?6, ?7, ?8, ?9, ?10, ?11, ?12, ?13)";

pub const REMOTE_INSERT_REMINDER: &'static str = "INSERT INTO reminders (id, title, description, original_text, due_at, status, created_at, updated_at, snooze_count, source, parsed_time_expression, repeat_interval_seconds, created_by) VALUES (@P1, @P2, @P3, @P4, @P5, @P6, @P7, @P8, @P9, @P10, @P11, @P12, @P13)";

pub open spec fn insert_params(r: Reminder, device: Seq<char>) -> Seq<SqlValueView> {
    seq![
        SqlValueView::Text(r.id@),
        SqlValueView::Text(r.title@),
        opt_text_value(opt_view(r.description)),
        opt_text_value(opt_view(r.original_text)),
        SqlValueView::Text(r.due_at@),
        SqlValueView::Text(r.status@),
        SqlValueView::Text(r.created_at@),
        SqlValueView::Text(r.updated_at@),
        SqlValueView::Int(r.snooze_count as int),
        SqlValueView::Text(r.source@),
        opt_text_value(opt_view(r.parsed_time_expression)),
        opt_int_value(r.repeat_interval_seconds),
        SqlValueView::Text(device),
    ]
}

/// `create_reminder`: inserts the reminder, recording `device` as its creator
/// (whatever its own `created_by` says).
pub fn insert_reminder(backend: Backend, r: &Reminder, device: &str) -> (s: Statement)
    ensures
        s.sql@ == (match backend {
            Backend::Local => LOCAL_INSERT_REMINDER@,
            Backend::Remote => REMOTE_INSERT_REMINDER@,
        }),
        s.params_view() == insert_params(*r, device@),
{
    let params = vec![
        SqlValue::Text(r.id.clone()),
        SqlValue::Text(r.title.clone()),
        opt_text(&r.description),
        opt_text(&r.original_text),
        SqlValue::Text(r.due_at.clone()),
        SqlValue::Text(r.status.clone()),
        SqlValue::Text(r.created_at.clone()),
        SqlValue::Text(r.updated_at.clone()),
        SqlValue::Int(r.snooze_count as i64),
        SqlValue::Text(r.source.clone()),
        opt_text(&r.parsed_time_expression),
        match r.repeat_interval_seconds {
            Some(i) => SqlValue::Int(i),
            None => SqlValue::Null,
        },
        text_value(device),
    ];
    let s = match backend {
        Backend::Local => statement(LOCAL_INSERT_REMINDER, params),
        Backend::Remote => statement(REMOTE_INSERT_REMINDER, params),
    };
    assert(s.params_view() =~= insert_params(*r, device@));
    s
}

pub const LOCAL_PENDING_REMINDERS: &'static str = "SELECT id, title, description, original_text, due_at, status, created_at, updated_at, notified_at, completed_at, cancelled_at, snooze_count, last_snoozed_at, parsed_time_expression, source, repeat_interval_seconds, created_by FROM reminders WHERE status IN ('pending', 'notified') ORDER BY due_at ASC";

pub const REMOTE_PENDING_REMINDERS: &'static str = "SELECT id, title, description, original_text, due_at, status, created_at, updated_at, notified_at, completed_at, cancelled_at, snooze_count, last_snoozed_at, parsed_time_expression, source, repeat_interval_seconds, created_by FROM reminders WHERE status IN (@P1, @P2) ORDER BY due_at ASC";

/// `get_pending_reminders`: the pending and notified reminders, earliest due
/// first.
pub fn pending_reminders(backend: Backend) -> (s: Statement)
    ensures
        backend == Backend::Local ==> s.sql@ == LOCAL_PENDING_REMINDERS@ && s.params_view()
            == Seq::<SqlValueView>::empty(),
        backend == Backend::Remote ==> s.sql@ == REMOTE_PENDING_REMINDERS@ && s.params_view()
            == seq![SqlValueView::Text("pending"@), SqlValueView::Text("notified"@)],
{
    match backend {
        Backend::Local => {
            let s = statement(LOCAL_PENDING_REMINDERS, Vec::new());
            assert(s.params_view() =~= Seq::<SqlValueView>::empty());
            s
        },
        Backend::Remote => {
            let s = statement(
                REMOTE_PENDING_REMINDERS,
                vec![text_value("pending"), text_value("notified")],
            );
            assert(s.params_view() =~= seq![
                SqlValueView::Text("pending"@),
                SqlValueView::Text("notified"@),
            ]);
            s
        },
    }
}

pub const LOCAL_REMINDERS_WITH_STATUS: &'static str = "SELECT id, title, description, original_text, due_at, status, created_at, updated_at, notified_at, completed_at, cancelled_at, snooze_count, last_snoozed_at, parsed_time_expression, source, repeat_interval_seconds, created_by FROM reminders WHERE status = ?1 ORDER BY due_at DESC";

pub const REMOTE_REMINDERS_WITH_STATUS: &'static str = "SELECT id, title, description, original_text, due_at, status, created_at, updated_at, notified_at, completed_at, cancelled_at, snooze_count, last_snoozed_at, parsed_time_expression, source, repeat_interval_seconds, created_by FROM reminders WHERE status = @P1 ORDER BY due_at DESC";

pub const ALL_REMINDERS: &'static str = "SELECT id, title, description, original_text, due_at, status, created_at, updated_at, notified_at, completed_at, cancelled_at, snooze_count, last_snoozed_at, parsed_time_expression, source, repeat_interval_seconds, created_by FROM reminders ORDER BY due_at DESC";

/// `get_all_reminders`: every reminder, or those with the given status, the
/// latest due first.
pub fn all_reminders(backend: Backend, status_filter: Option<&str>) -> (s: Statement)
    ensures
        status_filter is None ==> s.sql@ == ALL_REMINDERS@ && s.params_view() == Seq::<
            SqlValueView,
        >::empty(),
        status_filter matches Some(f) ==> s.params_view() == seq![SqlValueView::Text(f@)] && s.sql@
            == (match backend {
            Backend::Local => LOCAL_REMINDERS_WITH_STATUS@,
            Backend::Remote => REMOTE_REMINDERS_WITH_STATUS@,
        }),
{
    match status_filter {
        None => {
            let s = statement(ALL_REMINDERS, Vec::new());
            assert(s.params_view() =~= Seq::<SqlValueView>::empty());
            s
        },
        Some(f) => {
            let params = vec![text_value(f)];
            let s = match backend {
                Backend::Local => statement(LOCAL_REMINDERS_WITH_STATUS, params),
                Backend::Remote => statement(REMOTE_REMINDERS_WITH_STATUS, params),
            };
            assert(s.params_view() =~= seq![SqlValueView::Text(f@)]);
            s
        },
    }
}

pub const LOCAL_REMINDER_BY_ID: &'static str = "SELECT id, title, description, original_text, due_at, status, created_at, updated_at, notified_at, completed_at, cancelled_at, snooze_count, last_snoozed_at, parsed_time_expression, source, repeat_interval_seconds, created_by FROM reminders WHERE id = ?1";

pub const REMOTE_REMINDER_BY_ID: &'static str = "SELECT id, title, description, original_text, due_at, status, created_at, updated_at, notified_at, completed_at, cancelled_at, snooze_count, last_snoozed_at, parsed_time_expression, source, repeat_interval_seconds, created_by FROM reminders WHERE id = @P1";

/// `get_reminder_by_id`.
pub fn reminder_by_id(backend: Backend, id: &str) -> (s: Statement)
    ensures
        s.sql@ == (match backend {
            Backend::Local => LOCAL_REMINDER_BY_ID@,
            Backend::Remote => REMOTE_REMINDER_BY_ID@,
        }),
        s.params_view() == seq![SqlValueView::Text(id@)],
{
    let params = vec![text_value(id)];
    let s = match backend {
        Backend::Local => statement(LOCAL_REMINDER_BY_ID, params),
        Backend::Remote => statement(REMOTE_REMINDER_BY_ID, params),
    };
    assert(s.params_view() =~= seq![SqlValueView::Text(id@)]);
    s
}

pub const LOCAL_UPDATE_REMINDER: &'static str = "UPDATE reminders SET title = ?1, description = ?2, due_at = ?3, updated_at = ?4 WHERE id = ?5";

pub const REMOTE_UPDATE_REMINDER: &'static str = "UPDATE reminders SET title = @P1, description = @P2, due_at = @P3, updated_at = @P4 WHERE id = @P5";

/// `update_reminder`: new title, description and due time, stamped `now`.
pub fn update_reminder(
    backend: Backend,
    id: &str,
    title: &str,
    description: Option<&str>,
    due_at: &str,
    now: &str,
) -> (s: Statement)
    ensures
        s.sql@ == (match backend {
            Backend::Local => LOCAL_UPDATE_REMINDER@,
            Backend::Remote => REMOTE_UPDATE_REMINDER@,
        }),
        s.params_view() == seq![
            SqlValueView::Text(title@),
            opt_text_value(
                match description {
                    Some(d) => Some(d@),
                    None => None,
                },
            ),
            SqlValueView::Text(due_at@),
            SqlValueView::Text(now@),
            SqlValueView::Text(id@),
        ],
{
    let params = vec![
        text_value(title),
        opt_str(description),
        text_value(due_at),
        text_value(now),
        text_value(id),
    ];
    let s = match backend {
        Backend::Local => statement(LOCAL_UPDATE_REMINDER, params),
        Backend::Remote => statement(REMOTE_UPDATE_REMINDER, params),
    };
    assert(s.params_view() =~= seq![
        SqlValueView::Text(title@),
        opt_text_value(
            match description {
                Some(d) => Some(d@),
                None => None,
            },
        ),
        SqlValueView::Text(due_at@),
        SqlValueView::Text(now@),
        SqlValueView::Text(id@),
    ]);
    s
}

/// The timestamp column that a status change also stamps: reaching
/// "notified", "completed" or "cancelled" records when it happened; other
/// statuses stamp nothing beyond `updated_at`.
pub open spec fn status_column_spec(status: Seq<char>) -> Option<Seq<char>> {
    if status == "notified"@ {
        Some("notified_at"@)
    } else if status == "completed"@ {
        Some("completed_at"@)
    } else if status == "cancelled"@ {
        Some("cancelled_at"@)
    } else {
        None
    }
}

pub fn status_column(status: &str) -> (r: Option<&'static str>)
    ensures
        match r {
            Some(c) => status_column_spec(status@) == Some(c@),
            None => status_column_spec(status@) is None,
        },
{
    if text_equals(status, "notified") {
        Some("notified_at")
    } else if text_equals(status, "completed") {
        Some("completed_at")
    } else if text_equals(status, "cancelled") {
        Some("cancelled_at")
    } else {
        None
    }
}

pub open spec fn status_sql_spec(backend: Backend, column: Option<Seq<char>>) -> Seq<char> {
    match (backend, column) {
        (Backend::Local, Some(c)) => "UPDATE reminders SET status = ?1, updated_at = ?2, "@ + c
            + " = ?3 WHERE id = ?4"@,
        (Backend::Remote, Some(c)) => "UPDATE reminders SET status = @P1, updated_at = @P2, "@ + c
            + " = @P3 WHERE id = @P4"@,
        (Backend::Local, None) => "UPDATE reminders SET status = ?1, updated_at = ?2 WHERE id = ?3"@,
        (Backend::Remote, None) => "UPDATE reminders SET status = @P1, updated_at = @P2 WHERE id = @P3"@,
    }
}

/// `update_reminder_status`: sets the status and `updated_at`, and stamps the
/// status's own column (see `status_column_spec`) with the same time.
pub fn update_status(backend: Backend, id: &str, status: &str, now: &str) -> (s: Statement)
    ensures
        s.sql@ == status_sql_spec(backend, status_column_spec(status@)),
        status_column_spec(status@) is Some ==> s.params_view() == seq![
            SqlValueView::Text(status@),
            SqlValueView::Text(now@),
            SqlValueView::Text(now@),
            SqlValueView::Text(id@),
        ],
        status_column_spec(status@) is None ==> s.params_view() == seq![
            SqlValueView::Text(status@),
            SqlValueView::Text(now@),
            SqlValueView::Text(id@),
        ],
{
    match status_column(status) {
        Some(col) => {
            let mut sql: Vec<char> = Vec::new();
            match backend {
                Backend::Local => {
                    push_str(&mut sql, "UPDATE reminders SET status = ?1, updated_at = ?2, ");
                    push_str(&mut sql, col);
                    push_str(&mut sql, " = ?3 WHERE id = ?4");
                },
                Backend::Remote => {
                    push_str(&mut sql, "UPDATE reminders SET status = @P1, updated_at = @P2, ");
                    push_str(&mut sql, col);
                    push_str(&mut sql, " = @P3 WHERE id = @P4");
                },
            }
            let s = Statement {
                sql: string_of(&sql),
                params: vec![text_value(status), text_value(now), text_value(now), text_value(id)],
            };
            assert(s.params_view() =~= seq![
                SqlValueView::Text(status@),
                SqlValueView::Text(now@),
                SqlValueView::Text(now@),
                SqlValueView::Text(id@),
            ]);
            s
        },
        None => {
            let params = vec![text_value(status), text_value(now), text_value(id)];
            let s = match backend {
                Backend::Local => statement(
                    "UPDATE reminders SET status = ?1, updated_at = ?2 WHERE id = ?3",
                    params,
                ),
                Backend::Remote => statement(
                    "UPDATE reminders SET status = @P1, updated_at = @P2 WHERE id = @P3",
                    params,
                ),
            };
            assert(s.params_view() =~= seq![
                SqlValueView::Text(status@),
                SqlValueView::Text(now@),
                SqlValueView::Text(id@),
            ]);
            s
        },
    }
}

pub const LOCAL_SNOOZE: &'static str = "UPDATE reminders SET status = 'pending', due_at = ?1, snooze_count = snooze_count + 1, last_snoozed_at = ?2, updated_at = ?2 WHERE id = ?3";

pub const REMOTE_SNOOZE: &'static str = "UPDATE reminders SET status = @P1, due_at = @P2, snooze_count = snooze_count + 1, last_snoozed_at = @P3, updated_at = @P3 WHERE id = @P4";

/// `snooze_reminder`: back to pending, due at `new_due`, one more snooze,
/// snoozed and updated `now`.
pub fn snooze(backend: Backend, id: &str, new_due: &str, now: &str) -> (s: Statement)
    ensures
        backend == Backend::Local ==> s.sql@ == LOCAL_SNOOZE@ && s.params_view() == seq![
            SqlValueView::Text(new_due@),
            SqlValueView::Text(now@),
            SqlValueView::Text(id@),
        ],
        backend == Backend::Remote ==> s.sql@ == REMOTE_SNOOZE@ && s.params_view() == seq![
            SqlValueView::Text("pending"@),
            SqlValueView::Text(new_due@),
            SqlValueView::Text(now@),
            SqlValueView::Text(id@),
        ],
{
    match backend {
        Backend::Local => {
            let s = statement(
                LOCAL_SNOOZE,
                vec![text_value(new_due), text_value(now), text_value(id)],
            );
            assert(s.params_view() =~= seq![
                SqlValueView::Text(new_due@),
                SqlValueView::Text(now@),
                SqlValueView::Text(id@),
            ]);
            s
        },
        Backend::Remote => {
            let s = statement(
                REMOTE_SNOOZE,
                vec![text_value("pending"), text_value(new_due), text_value(now), text_value(id)],
            );
            assert(s.params_view() =~= seq![
                SqlValueView::Text("pending"@),
                SqlValueView::Text(new_due@),
                SqlValueView::Text(now@),
                SqlValueView::Text(id@),
            ]);
            s
        },
    }
}

/// A clock reading whose local wall clock agrees with its instant: a valid
/// date and time, less than a day from the UTC wall clock, as every reading
/// of the clock is (`read_clock`).
pub open spec fn consistent_clock(c: Clock) -> bool {
    c.local.valid() && within_a_day(c.local.position(), epoch_position(c.utc_seconds as int))
}

/// The wall clock `span` seconds after `at`, as a day and a second, counted
/// from the calendar's first day so that both come out by plain division.
pub open spec fn wall_after(at: LocalDateTime, span: int) -> (int, int) {
    let offset = (at.day - FIRST_DAY) * 86400 + at.second + span;
    (FIRST_DAY + offset / 86400, offset % 86400)
}

/// The wall clock `span` seconds after `at` is `span` seconds further on:
/// its position is `at`'s position plus the span, with a second of a day.
pub proof fn lemma_wall_after_moves_by_span(at: LocalDateTime, span: int)
    requires
        at.valid(),
        wall_after(at, span).0 >= FIRST_DAY,
    ensures
        wall_after(at, span).0 * 86400 + wall_after(at, span).1 == at.position() + span,
        0 <= wall_after(at, span).1 < 86400,
{
    let offset = (at.day - FIRST_DAY) * 86400 + at.second + span;
    assert(offset == (offset / 86400) * 86400 + offset % 86400);
}

/// The times a snooze records at the clock reading `clock`: the new due time
/// `minutes` after it and the reading itself, both as local time text.  For
/// a reading whose local wall clock agrees with its instant, the reading is
/// rendered as it is and the new due time is that wall clock moved ahead by
/// the span, at the reading's own zone offset; both are there while the
/// calendar lasts.  For any other reading the texts are the instant's local
/// times as the time zone gives them, of which only the shape is stated.
pub fn snooze_times_at(clock: &Clock, minutes: i32) -> (r: Option<(String, String)>)
    requires
        clock.utc_nanos < 1_000_000_000,
    ensures
        after_in_range(*clock, (minutes * 60) as i64) ==> r is Some,
        r matches Some((due, now)) ==> renders_near(due@, clock.utc_seconds + minutes * 60)
            && renders_near(now@, clock.utc_seconds as int),
        consistent_clock(*clock) && FIRST_DAY <= wall_after(clock.local, minutes * 60).0
            <= LAST_DAY ==> (r matches Some((due, now)) && renders(
            due@,
            wall_after(clock.local, minutes * 60).0,
            wall_after(clock.local, minutes * 60).1,
        ) && renders(now@, clock.local.day as int, clock.local.second as int)),
{
    let span = (minutes as i64) * 60;
    let local = clock.local;
    if FIRST_DAY <= local.day && local.day <= LAST_DAY && local.second < 86400 {
        let pos: i128 = local.day as i128 * 86400 + local.second as i128;
        let utc_pos: i128 = clock.utc_seconds as i128 + 719163 * 86400;
        if utc_pos - 86400 < pos && pos < utc_pos + 86400 {
            let offset: i64 = (local.day as i64 - FIRST_DAY as i64) * 86400 + local.second as i64
                + span;
            if offset >= 0 && offset / 86400 <= LAST_DAY as i64 - FIRST_DAY as i64 {
                let at = LocalDateTime {
                    day: (FIRST_DAY as i64 + offset / 86400) as i32,
                    second: (offset % 86400) as u32,
                };
                proof {
                    assert(at.day == wall_after(local, minutes * 60).0);
                    assert(at.second == wall_after(local, minutes * 60).1);
                    lemma_wall_after_moves_by_span(local, minutes * 60);
                }
                let due = match naive_text(at) {
                    Some(d) => d,
                    None => {
                        return None;
                    },
                };
                let now = match naive_text(local) {
                    Some(n) => n,
                    None => {
                        return None;
                    },
                };
                proof {
                    assert(renders(due@, at.day as int, at.second as int));
                    assert(within_a_day(
                        at.day * 86400 + at.second,
                        epoch_position(clock.utc_seconds + minutes * 60),
                    ));
                    assert(renders(now@, local.day as int, local.second as int));
                    assert(within_a_day(
                        local.day * 86400 + local.second,
                        epoch_position(clock.utc_seconds as int),
                    ));
                }
                return Some((due, now));
            }
        }
    }
    let due = match local_text_after(clock, span) {
        Some(d) => d,
        None => {
            return None;
        },
    };
    let now = match local_text_after(clock, 0) {
        Some(n) => n,
        None => {
            return None;
        },
    };
    Some((due, now))
}

/// The times a snooze records, from one reading of the clock: the new due
/// time `minutes` after now, and now, both as local time text.  `None` where
/// the new due time is beyond what `chrono` represents.  Which local dates
/// and times they render depends on the clock and the time zone, so of each
/// only the shape of the text is stated.
pub fn snooze_times(minutes: i32) -> (r: Option<(String, String)>)
    ensures
        r matches Some((due, now)) ==> is_timestamp_text(due@) && is_timestamp_text(now@),
{
    let clock = read_clock();
    let r = snooze_times_at(&clock, minutes);
    proof {
        if let Some((ref due, ref now)) = r {
            lemma_near_is_timestamp(due@, clock.utc_seconds + minutes * 60);
            lemma_near_is_timestamp(now@, clock.utc_seconds as int);
        }
    }
    r
}

pub const LOCAL_RESCHEDULE: &'static str = "UPDATE reminders SET due_at = ?1, updated_at = ?2, status = 'pending' WHERE id = ?3";

pub const REMOTE_RESCHEDULE: &'static str = "UPDATE reminders SET due_at = @P1, updated_at = @P2, status = @P3 WHERE id = @P4";

/// `reschedule_repeating`: due again at `new_due_at`, pending, updated `now`.
pub fn reschedule(backend: Backend, id: &str, new_due_at: &str, now: &str) -> (s: Statement)
    ensures
        backend == Backend::Local ==> s.sql@ == LOCAL_RESCHEDULE@ && s.params_view() == seq![
            SqlValueView::Text(new_due_at@),
            SqlValueView::Text(now@),
            SqlValueView::Text(id@),
        ],
        backend == Backend::Remote ==> s.sql@ == REMOTE_RESCHEDULE@ && s.params_view() == seq![
            SqlValueView::Text(new_due_at@),
            SqlValueView::Text(now@),
            SqlValueView::Text("pending"@),
            SqlValueView::Text(id@),
        ],
{
    match backend {
        Backend::Local => {
            let s = statement(
                LOCAL_RESCHEDULE,
                vec![text_value(new_due_at), text_value(now), text_value(id)],
            );
            assert(s.params_view() =~= seq![
                SqlValueView::Text(new_due_at@),
                SqlValueView::Text(now@),
                SqlValueView::Text(id@),
            ]);
            s
        },
        Backend::Remote => {
            let s = statement(
                REMOTE_RESCHEDULE,
                vec![text_value(new_due_at), text_value(now), text_value("pending"), text_value(id)],
            );
            assert(s.params_view() =~= seq![
                SqlValueView::Text(new_due_at@),
                SqlValueView::Text(now@),
                SqlValueView::Text("pending"@),
                SqlValueView::Text(id@),
            ]);
            s
        },
    }
}

pub const LOCAL_DELETE_EVENTS: &'static str = "DELETE FROM notification_events WHERE reminder_id = ?1";

pub const LOCAL_DELETE_REMINDER: &'static str = "DELETE FROM reminders WHERE id = ?1";

pub const REMOTE_DELETE_REMINDER: &'static str = "DELETE FROM reminders WHERE id = @P1";

/// `delete_reminder`: locally, the reminder's notification events and then
/// the reminder; on the shared server, the reminder alone.  The id is always
/// a bound parameter, never part of the query's text.
pub fn delete_reminder(backend: Backend, id: &str) -> (r: Vec<Statement>)
    ensures
        backend == Backend::Local ==> r@.len() == 2 && r@[0].sql@ == LOCAL_DELETE_EVENTS@
            && r@[0].params_view() == seq![SqlValueView::Text(id@)] && r@[1].sql@
            == LOCAL_DELETE_REMINDER@ && r@[1].params_view() == seq![SqlValueView::Text(id@)],
        backend == Backend::Remote ==> r@.len() == 1 && r@[0].sql@ == REMOTE_DELETE_REMINDER@
            && r@[0].params_view() == seq![SqlValueView::Text(id@)],
{
    match backend {
        Backend::Local => {
            let a = statement(LOCAL_DELETE_EVENTS, vec![text_value(id)]);
            let b = statement(LOCAL_DELETE_REMINDER, vec![text_value(id)]);
            assert(a.params_view() =~= seq![SqlValueView::Text(id@)]);
            assert(b.params_view() =~= seq![SqlValueView::Text(id@)]);
            vec![a, b]
        },
        Backend::Remote => {
            let s = statement(REMOTE_DELETE_REMINDER, vec![text_value(id)]);
            assert(s.params_view() =~= seq![SqlValueView::Text(id@)]);
            vec![s]
        },
    }
}

pub const GET_SETTING: &'static str = "SELECT value FROM settings WHERE key = ?1";

pub const SET_SETTING: &'static str = "INSERT OR REPLACE INTO settings (key, value, updated_at) VALUES (?1, ?2, ?3)";

pub const INSERT_DEFAULT_SETTING: &'static str = "INSERT OR IGNORE INTO settings (key, value, updated_at) VALUES (?1, ?2, ?3)";

pub const ALL_SETTINGS: &'static str = "SELECT key, value, updated_at FROM settings ORDER BY key";

/// `get_setting` (always local).
pub fn get_setting(key: &str) -> (s: Statement)
    ensures
        s.sql@ == GET_SETTING@,
        s.params_view() == seq![SqlValueView::Text(key@)],
{
    let s = statement(GET_SETTING, vec![text_value(key)]);
    assert(s.params_view() =~= seq![SqlValueView::Text(key@)]);
    s
}

/// `set_setting` (always local): creates or replaces the setting.
pub fn set_setting(key: &str, value: &str, now: &str) -> (s: Statement)
    ensures
        s.sql@ == SET_SETTING@,
        s.params_view() == seq![
            SqlValueView::Text(key@),
            SqlValueView::Text(value@),
            SqlValueView::Text(now@),
        ],
{
    let s = statement(SET_SETTING, vec![text_value(key), text_value(value), text_value(now)]);
    assert(s.params_view() =~= seq![
        SqlValueView::Text(key@),
        SqlValueView::Text(value@),
        SqlValueView::Text(now@),
    ]);
    s
}

/// `insert_default_settings`' statement for one default setting; it leaves
/// an existing value alone.
pub fn default_setting_insert(key: &str, value: &str, now: &str) -> (s: Statement)
    ensures
        s.sql@ == INSERT_DEFAULT_SETTING@,
        s.params_view() == seq![
            SqlValueView::Text(key@),
            SqlValueView::Text(value@),
            SqlValueView::Text(now@),
        ],
{
    let s = statement(
        INSERT_DEFAULT_SETTING,
        vec![text_value(key), text_value(value), text_value(now)],
    );
    assert(s.params_view() =~= seq![
        SqlValueView::Text(key@),
        SqlValueView::Text(value@),
        SqlValueView::Text(now@),
    ]);
    s
}

/// `get_all_settings`, ordered by key.
pub fn all_settings() -> (s: Statement)
    ensures
        s.sql@ == ALL_SETTINGS@,
        s.params_view() == Seq::<SqlValueView>::empty(),
{
    let s = statement(ALL_SETTINGS, Vec::new());
    assert(s.params_view() =~= Seq::<SqlValueView>::empty());
    s
}

pub const INSERT_DEFAULT_SHORTCUT: &'static str = "INSERT OR IGNORE INTO shortcuts (id, action, accelerator, enabled, created_at, updated_at) VALUES (?1, ?2, ?3, 1, ?4, ?5)";

pub const ALL_SHORTCUTS: &'static str = "SELECT id, action, accelerator, enabled, created_at, updated_at FROM shortcuts ORDER BY action";

pub const UPDATE_SHORTCUT: &'static str = "UPDATE shortcuts SET accelerator = ?1, enabled = ?2, updated_at = ?3 WHERE id = ?4";

/// `insert_default_shortcuts`' statement for one default, with a fresh id.
pub fn default_shortcut_insert(id: &str, action: &str, accelerator: &str, now: &str) -> (s: Statement)
    ensures
        s.sql@ == INSERT_DEFAULT_SHORTCUT@,
        s.params_view() == seq![
            SqlValueView::Text(id@),
            SqlValueView::Text(action@),
            SqlValueView::Text(accelerator@),
            SqlValueView::Text(now@),
            SqlValueView::Text(now@),
        ],
{
    let s = statement(
        INSERT_DEFAULT_SHORTCUT,
        vec![
            text_value(id),
            text_value(action),
            text_value(accelerator),
            text_value(now),
            text_value(now),
        ],
    );
    assert(s.params_view() =~= seq![
        SqlValueView::Text(id@),
        SqlValueView::Text(action@),
        SqlValueView::Text(accelerator@),
        SqlValueView::Text(now@),
        SqlValueView::Text(now@),
    ]);
    s
}

/// `get_all_shortcuts`, ordered by action.
pub fn all_shortcuts() -> (s: Statement)
    ensures
        s.sql@ == ALL_SHORTCUTS@,
        s.params_view() == Seq::<SqlValueView>::empty(),
{
    let s = statement(ALL_SHORTCUTS, Vec::new());
    assert(s.params_view() =~= Seq::<SqlValueView>::empty());
    s
}

/// `update_shortcut`: new accelerator and enabled flag (stored as 1 or 0).
pub fn update_shortcut(id: &str, accelerator: &str, enabled: bool, now: &str) -> (s: Statement)
    ensures
        s.sql@ == UPDATE_SHORTCUT@,
        s.params_view() == seq![
            SqlValueView::Text(accelerator@),
            SqlValueView::Int(if enabled {
                1
            } else {
                0
            }),
            SqlValueView::Text(now@),
            SqlValueView::Text(id@),
        ],
{
    let flag: i64 = if enabled {
        1
    } else {
        0
    };
    let s = statement(
        UPDATE_SHORTCUT,
        vec![text_value(accelerator), SqlValue::Int(flag), text_value(now), text_value(id)],
    );
    assert(s.params_view() =~= seq![
        SqlValueView::Text(accelerator@),
        SqlValueView::Int(
            if enabled {
                1
            } else {
                0
            },
        ),
        SqlValueView::Text(now@),
        SqlValueView::Text(id@),
    ]);
    s
}

pub const LOG_EVENT: &'static str = "INSERT INTO notification_events (id, reminder_id, event_type, created_at, metadata) VALUES (?1, ?2, ?3, ?4, ?5)";

pub const CLEAR_EVENTS: &'static str = "DELETE FROM notification_events WHERE reminder_id = ?1";

pub const COUNT_EVENTS: &'static str = "SELECT COUNT(*) FROM notification_events WHERE reminder_id = ?1 AND event_type = ?2";

pub const LAST_NOTIFIED: &'static str = "SELECT id, title, description, original_text, due_at, status, created_at, updated_at, notified_at, completed_at, cancelled_at, snooze_count, last_snoozed_at, parsed_time_expression, source, repeat_interval_seconds, created_by FROM reminders WHERE status = 'notified' ORDER BY updated_at DESC LIMIT 1";

/// `log_notification_event` (always local).
pub fn log_event(
    id: &str,
    reminder_id: &str,
    event_type: &str,
    now: &str,
    metadata: Option<&str>,
) -> (s: Statement)
    ensures
        s.sql@ == LOG_EVENT@,
        s.params_view() == seq![
            SqlValueView::Text(id@),
            SqlValueView::Text(reminder_id@),
            SqlValueView::Text(event_type@),
            SqlValueView::Text(now@),
            opt_text_value(
                match metadata {
                    Some(m) => Some(m@),
                    None => None,
                },
            ),
        ],
{
    let s = statement(
        LOG_EVENT,
        vec![
            text_value(id),
            text_value(reminder_id),
            text_value(event_type),
            text_value(now),
            opt_str(metadata),
        ],
    );
    assert(s.params_view() =~= seq![
        SqlValueView::Text(id@),
        SqlValueView::Text(reminder_id@),
        SqlValueView::Text(event_type@),
        SqlValueView::Text(now@),
        opt_text_value(
            match metadata {
                Some(m) => Some(m@),
                None => None,
            },
        ),
    ]);
    s
}

/// `clear_notification_events` (always local).
pub fn clear_events(reminder_id: &str) -> (s: Statement)
    ensures
        s.sql@ == CLEAR_EVENTS@,
        s.params_view() == seq![SqlValueView::Text(reminder_id@)],
{
    let s = statement(CLEAR_EVENTS, vec![text_value(reminder_id)]);
    assert(s.params_view() =~= seq![SqlValueView::Text(reminder_id@)]);
    s
}

/// `get_notification_events_for_reminder` (always local): how many events of
/// a type a reminder has.
pub fn count_events(reminder_id: &str, event_type: &str) -> (s: Statement)
    ensures
        s.sql@ == COUNT_EVENTS@,
        s.params_view() == seq![
            SqlValueView::Text(reminder_id@),
            SqlValueView::Text(event_type@),
        ],
{
    let s = statement(COUNT_EVENTS, vec![text_value(reminder_id), text_value(event_type)]);
    assert(s.params_view() =~= seq![
        SqlValueView::Text(reminder_id@),
        SqlValueView::Text(event_type@),
    ]);
    s
}

pub const COUNT_EVENTS_FOR_DUE: &'static str = "SELECT COUNT(*) FROM notification_events WHERE reminder_id = ?1 AND event_type = ?2 AND metadata = ?3";

/// How many events of a type a reminder has for one due time: the scheduler
/// logs each "displayed" event with the due time it was shown for.
pub fn count_events_for_due(reminder_id: &str, event_type: &str, due_at: &str) -> (s: Statement)
    ensures
        s.sql@ == COUNT_EVENTS_FOR_DUE@,
        s.params_view() == seq![
            SqlValueView::Text(reminder_id@),
            SqlValueView::Text(event_type@),
            SqlValueView::Text(due_at@),
        ],
{
    let s = statement(
        COUNT_EVENTS_FOR_DUE,
        vec![text_value(reminder_id), text_value(event_type), text_value(due_at)],
    );
    assert(s.params_view() =~= seq![
        SqlValueView::Text(reminder_id@),
        SqlValueView::Text(event_type@),
        SqlValueView::Text(due_at@),
    ]);
    s
}

/// `get_last_notified_reminder` (always local): the most recently updated
/// notified reminder.
pub fn last_notified() -> (s: Statement)
    ensures
        s.sql@ == LAST_NOTIFIED@,
        s.params_view() == Seq::<SqlValueView>::empty(),
{
    let s = statement(LAST_NOTIFIED, Vec::new());
    assert(s.params_view() =~= Seq::<SqlValueView>::empty());
    s
}

// ---------------------------------------------------------------------------
// Rows of the shared server
// ---------------------------------------------------------------------------

/// A reminders row as the shared server returns it: each column read as
/// text or as a number, `None` where it is `NULL`.
pub struct RemoteRow {
    pub id: Option<String>,
    pub title: Option<String>,
    pub description: Option<String>,
    pub original_text: Option<String>,
    pub due_at: Option<String>,
    pub status: Option<String>,
    pub created_at: Option<String>,
    pub updated_at: Option<String>,
    pub notified_at: Option<String>,
    pub completed_at: Option<String>,
    pub cancelled_at: Option<String>,
    pub snooze_count: Option<i32>,
    pub last_snoozed_at: Option<String>,
    pub parsed_time_expression: Option<String>,
    pub source: Option<String>,
    pub repeat_interval_seconds: Option<i64>,
    pub created_by: Option<String>,
}

/// The columns a reminder cannot do without.
pub open spec fn row_complete(row: RemoteRow) -> bool {
    &&& row.id is Some
    &&& row.title is Some
    &&& row.due_at is Some
    &&& row.status is Some
    &&& row.created_at is Some
    &&& row.updated_at is Some
    &&& row.source is Some
}

/// `reminder_from_row`: a reminder when every required column is present
/// (a missing snooze count counts as 0); rows lacking one are skipped.
pub fn reminder_from_row(row: RemoteRow) -> (r: Option<Reminder>)
    ensures
        r is Some <==> row_complete(row),
        r matches Some(rem) ==> {
            &&& Some(rem.id) == row.id
            &&& Some(rem.title) == row.title
            &&& rem.description == row.description
            &&& rem.original_text == row.original_text
            &&& Some(rem.due_at) == row.due_at
            &&& Some(rem.status) == row.status
            &&& Some(rem.created_at) == row.created_at
            &&& Some(rem.updated_at) == row.updated_at
            &&& rem.notified_at == row.notified_at
            &&& rem.completed_at == row.completed_at
            &&& rem.cancelled_at == row.cancelled_at
            &&& rem.snooze_count == (match row.snooze_count {
                Some(n) => n,
                None => 0,
            })
            &&& rem.last_snoozed_at == row.last_snoozed_at
            &&& rem.parsed_time_expression == row.parsed_time_expression
            &&& Some(rem.source) == row.source
            &&& rem.repeat_interval_seconds == row.repeat_interval_seconds
            &&& rem.created_by == row.created_by
        },
{
    let RemoteRow {
        id,
        title,
        description,
        original_text,
        due_at,
        status,
        created_at,
        updated_at,
        notified_at,
        completed_at,
        cancelled_at,
        snooze_count,
        last_snoozed_at,
        parsed_time_expression,
        source,
        repeat_interval_seconds,
        created_by,
    } = row;
    match (id, title, due_at, status, created_at, updated_at, source) {
        (Some(id), Some(title), Some(due_at), Some(status), Some(created_at), Some(updated_at), Some(source)) => {
            Some(
                Reminder {
                    id,
                    title,
                    description,
                    original_text,
                    due_at,
                    status,
                    created_at,
                    updated_at,
                    notified_at,
                    completed_at,
                    cancelled_at,
                    snooze_count: match snooze_count {
                        Some(n) => n,
                        None => 0,
                    },
                    last_snoozed_at,
                    parsed_time_expression,
                    source,
                    repeat_interval_seconds,
                    created_by,
                },
            )
        },
        _ => None,
    }
}

} // verus!
