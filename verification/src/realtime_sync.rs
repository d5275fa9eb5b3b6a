//! Decisions of real-time synchronisation: validating the monitoring setup,
//! counting detected changes and backups, keeping a short event history, and
//! choosing how notifications look.

use vstd::prelude::*;
use crate::numeric::{chars_of, decimal, push_decimal};
use crate::text::{push_all, str_equal, string_from_chars};
use crate::text_lines::{texts, trim_text, trimmed};

verus! {

/// How many events the history keeps.
pub const HISTORY_LIMIT: usize = 20;

/// An event of the synchronisation history.
pub struct SyncEvent {
    pub timestamp: String,
    pub event_type: String,
    pub details: String,
}

/// Appends `event` to `history` and, when the history then holds more than
/// `HISTORY_LIMIT` events, drops the oldest one.
pub fn push_history_event(history: &mut Vec<SyncEvent>, event: SyncEvent)
    ensures
        old(history)@.len() + 1 <= HISTORY_LIMIT ==> final(history)@ == old(history)@.push(event),
        old(history)@.len() + 1 > HISTORY_LIMIT ==> final(history)@ == old(history)@.push(
            event,
        ).drop_first(),
{
    history.push(event);
    if history.len() > HISTORY_LIMIT {
        history.remove(0);
        assert(old(history)@.push(event).remove(0) =~= old(history)@.push(event).drop_first());
    }
}

/// The history after an event is added: the oldest event leaves once more
/// than `HISTORY_LIMIT` would be kept.
pub open spec fn history_after<E>(h: Seq<E>, e: E) -> Seq<E> {
    if h.len() + 1 > HISTORY_LIMIT {
        h.push(e).drop_first()
    } else {
        h.push(e)
    }
}

/// A history never grows beyond `HISTORY_LIMIT` events, and the event just
/// added is always its newest.
pub proof fn law_history_bounded<E>(h: Seq<E>, e: E)
    requires
        h.len() <= HISTORY_LIMIT,
    ensures
        history_after(h, e).len() <= HISTORY_LIMIT,
        history_after(h, e).last() == e,
{
}

/// What is missing before monitoring can start, checked in this order.
#[derive(PartialEq, Eq, Structural, Clone, Copy, Debug)]
pub enum SetupIssue {
    MissingSource,
    MissingDestination,
    MissingBackupFolder,
    MissingPassword,
}

/// The first missing piece of the monitoring setup, if any: source folder,
/// destination folder, backup folder, then backup password.
pub fn check_monitor_setup(
    source_empty: bool,
    destination_empty: bool,
    backup_empty: bool,
    password_empty: bool,
) -> (r: Option<SetupIssue>)
    ensures
        r == (if source_empty {
            Some(SetupIssue::MissingSource)
        } else if destination_empty {
            Some(SetupIssue::MissingDestination)
        } else if backup_empty {
            Some(SetupIssue::MissingBackupFolder)
        } else if password_empty {
            Some(SetupIssue::MissingPassword)
        } else {
            None
        }),
{
    if source_empty {
        Some(SetupIssue::MissingSource)
    } else if destination_empty {
        Some(SetupIssue::MissingDestination)
    } else if backup_empty {
        Some(SetupIssue::MissingBackupFolder)
    } else if password_empty {
        Some(SetupIssue::MissingPassword)
    } else {
        None
    }
}

/// The counters of a monitoring session.
pub struct SyncCounters {
    /// Files seen by the last synchronisation pass.
    pub last_count: usize,
    /// Changes detected since monitoring started.
    pub files_changed: usize,
    /// Automatic backups made.
    pub backups_created: usize,
    /// Failed synchronisations and backups.
    pub sync_errors: usize,
}

impl SyncCounters {
    /// The counters right after the first synchronisation, which saw
    /// `initial_count` files.
    pub fn start(initial_count: usize) -> (r: SyncCounters)
        ensures
            r.last_count == initial_count,
            r.files_changed == 0,
            r.backups_created == 0,
            r.sync_errors == 0,
    {
        SyncCounters { last_count: initial_count, files_changed: 0, backups_created: 0, sync_errors: 0 }
    }

    /// Takes in a synchronisation pass that saw `new_count` files and gives
    /// the number of changes it detected: the growth in files, if any. Only a
    /// growth changes the counters.
    pub fn record_sync(&mut self, new_count: usize) -> (changes: Option<usize>)
        requires
            new_count > old(self).last_count ==> old(self).files_changed + (new_count - old(
                self,
            ).last_count) <= usize::MAX,
        ensures
            new_count > old(self).last_count ==> changes == Some((new_count - old(self).last_count) as usize)
                && final(self).last_count == new_count && final(self).files_changed == old(
                self,
            ).files_changed + (new_count - old(self).last_count),
            new_count <= old(self).last_count ==> changes is None && final(self).last_count == old(
                self,
            ).last_count && final(self).files_changed == old(self).files_changed,
            final(self).backups_created == old(self).backups_created,
            final(self).sync_errors == old(self).sync_errors,
    {
        if new_count > self.last_count {
            let changes = new_count - self.last_count;
            self.files_changed = self.files_changed + changes;
            self.last_count = new_count;
            Some(changes)
        } else {
            None
        }
    }

    /// Takes in the outcome of an automatic backup.
    pub fn record_backup(&mut self, succeeded: bool)
        requires
            succeeded ==> old(self).backups_created < usize::MAX,
            !succeeded ==> old(self).sync_errors < usize::MAX,
        ensures
            final(self).last_count == old(self).last_count,
            final(self).files_changed == old(self).files_changed,
            final(self).backups_created == old(self).backups_created + (if succeeded { 1int } else { 0int }),
            final(self).sync_errors == old(self).sync_errors + (if succeeded { 0int } else { 1int }),
    {
        if succeeded {
            self.backups_created = self.backups_created + 1;
        } else {
            self.sync_errors = self.sync_errors + 1;
        }
    }

    /// Takes in a failed synchronisation pass.
    pub fn record_sync_error(&mut self)
        requires
            old(self).sync_errors < usize::MAX,
        ensures
            final(self).last_count == old(self).last_count,
            final(self).files_changed == old(self).files_changed,
            final(self).backups_created == old(self).backups_created,
            final(self).sync_errors == old(self).sync_errors + 1,
    {
        self.sync_errors = self.sync_errors + 1;
    }
}

/// The desktop icon of a notification of kind `kind`.
pub open spec fn notification_icon_name(kind: Seq<char>) -> Seq<char> {
    if kind == "error"@ {
        "dialog-error"@
    } else if kind == "warning"@ {
        "dialog-warning"@
    } else {
        "dialog-information"@
    }
}

/// The status reported to the webhook for a notification of kind `kind`.
pub open spec fn notification_status_name(kind: Seq<char>) -> Seq<char> {
    if kind == "success"@ {
        "success"@
    } else if kind == "error"@ {
        "error"@
    } else if kind == "warning"@ {
        "warning"@
    } else {
        "info"@
    }
}

/// The desktop icon of a notification: an error or warning icon for those
/// kinds, the information icon otherwise.
pub fn notification_icon(kind: &str) -> (r: String)
    ensures
        r@ == notification_icon_name(kind@),
{
    if str_equal(kind, "error") {
        "dialog-error".to_string()
    } else if str_equal(kind, "warning") {
        "dialog-warning".to_string()
    } else {
        "dialog-information".to_string()
    }
}

/// The status reported to the webhook: `success`, `error` and `warning` are
/// kept, anything else is `info`.
pub fn notification_status(kind: &str) -> (r: String)
    ensures
        r@ == notification_status_name(kind@),
{
    if str_equal(kind, "success") {
        "success".to_string()
    } else if str_equal(kind, "error") {
        "error".to_string()
    } else if str_equal(kind, "warning") {
        "warning".to_string()
    } else {
        "info".to_string()
    }
}

/// The webhook address a notification goes to: the configured one when
/// webhooks are enabled.
pub fn webhook_target(enabled: bool, url: &str) -> (r: Option<String>)
    ensures
        enabled ==> (r matches Some(u) && u@ == url@),
        !enabled ==> r is None,
{
    if enabled {
        Some(url.to_string())
    } else {
        None
    }
}

/// The ignore patterns of a new monitoring session.
pub open spec fn default_patterns() -> Seq<Seq<char>> {
    seq![
        ".*\\.tmp$"@,
        ".*\\.lock$"@,
        ".*\\.swp$"@,
        ".git"@,
        ".DS_Store"@,
        "node_modules"@,
        "target"@,
    ]
}

/// The default ignore patterns (also what "restore defaults" sets).
pub fn default_ignore_patterns() -> (r: Vec<String>)
    ensures
        texts(r@) == default_patterns(),
{
    let mut v: Vec<String> = Vec::new();
    v.push(".*\\.tmp$".to_string());
    v.push(".*\\.lock$".to_string());
    v.push(".*\\.swp$".to_string());
    v.push(".git".to_string());
    v.push(".DS_Store".to_string());
    v.push("node_modules".to_string());
    v.push("target".to_string());
    assert(texts(v@) =~= default_patterns());
    v
}

/// What became of a pattern typed into the ignore editor.
#[derive(PartialEq, Eq, Structural, Clone, Copy, Debug)]
pub enum PatternAdd {
    Added,
    AlreadyPresent,
    Empty,
}

/// No pattern occurs twice.
pub open spec fn distinct_texts(v: Seq<Seq<char>>) -> bool {
    forall|i: int, j: int| 0 <= i < j < v.len() ==> v[i] != v[j]
}

fn contains_text(v: &Vec<String>, t: &String) -> (r: bool)
    ensures
        r == texts(v@).contains(t@),
{
    let mut i: usize = 0;
    while i < v.len()
        invariant
            i <= v@.len(),
            forall|k: int| 0 <= k < i ==> texts(v@)[k] != t@,
        decreases v@.len() - i,
    {
        if str_equal(v[i].as_str(), t.as_str()) {
            assert(texts(v@)[i as int] == t@);
            return true;
        }
        i = i + 1;
    }
    false
}

/// Adds the trimmed `input` to the ignore patterns unless it is empty or
/// already there.
pub fn add_ignore_pattern(patterns: &mut Vec<String>, input: &str) -> (r: PatternAdd)
    ensures
        trimmed(input@).len() == 0 ==> r == PatternAdd::Empty && final(patterns)@ == old(
            patterns,
        )@,
        trimmed(input@).len() > 0 && texts(old(patterns)@).contains(trimmed(input@)) ==> r
            == PatternAdd::AlreadyPresent && final(patterns)@ == old(patterns)@,
        trimmed(input@).len() > 0 && !texts(old(patterns)@).contains(trimmed(input@)) ==> r
            == PatternAdd::Added && texts(final(patterns)@) == texts(old(patterns)@).push(
            trimmed(input@),
        ),
{
    let p = trim_text(input);
    if p.as_str().unicode_len() == 0 {
        return PatternAdd::Empty;
    }
    if contains_text(patterns, &p) {
        return PatternAdd::AlreadyPresent;
    }
    let ghost t = p@;
    patterns.push(p);
    assert(texts(patterns@) =~= texts(old(patterns)@).push(t));
    PatternAdd::Added
}

/// Adding patterns through the editor never makes a pattern occur twice.
pub proof fn law_patterns_stay_distinct(before: Seq<Seq<char>>, p: Seq<char>)
    requires
        distinct_texts(before),
        !before.contains(p),
    ensures
        distinct_texts(before.push(p)),
{
    assert forall|i: int, j: int| 0 <= i < j < before.push(p).len() implies before.push(p)[i]
        != before.push(p)[j] by {
        if j == before.len() {
            assert(before[i] == before.push(p)[i]);
        }
    }
}

/// The status shown after a pattern was typed into the editor.
pub fn pattern_add_message(outcome: PatternAdd) -> (r: String)
    ensures
        r@ == match outcome {
            PatternAdd::Added => "✅ Pattern added successfully"@,
            PatternAdd::AlreadyPresent => "❌ Pattern already exists"@,
            PatternAdd::Empty => "❌ Enter a valid pattern"@,
        },
{
    match outcome {
        PatternAdd::Added => "✅ Pattern added successfully".to_string(),
        PatternAdd::AlreadyPresent => "❌ Pattern already exists".to_string(),
        PatternAdd::Empty => "❌ Enter a valid pattern".to_string(),
    }
}

/// The status shown after `pattern` was removed.
pub fn pattern_removed_message(pattern: &str) -> (r: String)
    ensures
        r@ == "✅ Pattern '"@ + pattern@ + "' removed"@,
{
    let mut out = chars_of("✅ Pattern '");
    push_all(&mut out, &chars_of(pattern));
    push_all(&mut out, &chars_of("' removed"));
    string_from_chars(out)
}

/// A notification of the monitoring session: title, message and kind.
pub struct SyncNotice {
    pub title: String,
    pub message: String,
    pub kind: String,
}

fn notice(title: &str, message: String, kind: &str) -> (r: SyncNotice)
    ensures
        r.title@ == title@,
        r.message@ == message@,
        r.kind@ == kind@,
{
    SyncNotice { title: title.to_string(), message, kind: kind.to_string() }
}

fn counted(n: usize, text: &str) -> (r: String)
    ensures
        r@ == decimal(n as nat) + text@,
{
    let mut out: Vec<char> = Vec::new();
    push_decimal(&mut out, n as u64);
    push_all(&mut out, &chars_of(text));
    string_from_chars(out)
}

/// The history event and notification of a pass that synchronized `changes` files.
pub fn files_synced_event(timestamp: String, changes: usize) -> (r: (SyncEvent, SyncNotice))
    ensures
        r.0.timestamp == timestamp,
        r.0.event_type@ == "file_synced"@,
        r.0.details@ == decimal(changes as nat) + " file(s) synchronized"@,
        r.1.title@ == "📄 Files Synchronized"@,
        r.1.message@ == decimal(changes as nat) + " file(s) successfully synchronized"@,
        r.1.kind@ == "success"@,
{
    (
        SyncEvent {
            timestamp,
            event_type: "file_synced".to_string(),
            details: counted(changes, " file(s) synchronized"),
        },
        notice("📄 Files Synchronized", counted(changes, " file(s) successfully synchronized"), "success"),
    )
}

/// The status, history event and notification after the automatic backup
/// `backup_name` was made.
pub fn backup_created_event(timestamp: String, backup_name: &str) -> (r: (String, SyncEvent, SyncNotice))
    ensures
        r.0@ == "✅ "@ + backup_name@,
        r.1.timestamp == timestamp,
        r.1.event_type@ == "backup_created"@,
        r.1.details@ == "Automatic backup created successfully"@,
        r.2.title@ == "💾 Backup Created"@,
        r.2.message@ == "Backup '"@ + backup_name@ + "' created successfully and encrypted"@,
        r.2.kind@ == "success"@,
{
    let mut status = chars_of("✅ ");
    push_all(&mut status, &chars_of(backup_name));
    let mut message = chars_of("Backup '");
    push_all(&mut message, &chars_of(backup_name));
    push_all(&mut message, &chars_of("' created successfully and encrypted"));
    (
        string_from_chars(status),
        SyncEvent {
            timestamp,
            event_type: "backup_created".to_string(),
            details: "Automatic backup created successfully".to_string(),
        },
        notice("💾 Backup Created", string_from_chars(message), "success"),
    )
}

/// The history event and notification after the automatic backup failed.
pub fn backup_failed_event(timestamp: String) -> (r: (SyncEvent, SyncNotice))
    ensures
        r.0.timestamp == timestamp,
        r.0.event_type@ == "error"@,
        r.0.details@ == "Failed to create backup"@,
        r.1.title@ == "❌ Backup Error"@,
        r.1.message@ == "Failed to create automatic backup - check permissions"@,
        r.1.kind@ == "error"@,
{
    (
        SyncEvent {
            timestamp,
            event_type: "error".to_string(),
            details: "Failed to create backup".to_string(),
        },
        notice(
            "❌ Backup Error",
            "Failed to create automatic backup - check permissions".to_string(),
            "error",
        ),
    )
}

/// The history event and notification after a synchronization failed with `error`.
pub fn sync_failed_event(timestamp: String, error: &str) -> (r: (SyncEvent, SyncNotice))
    ensures
        r.0.timestamp == timestamp,
        r.0.event_type@ == "error"@,
        r.0.details@ == "Synchronization error: "@ + error@,
        r.1.title@ == "❌ Synchronization Error"@,
        r.1.message@ == "Synchronization failed: "@ + error@,
        r.1.kind@ == "error"@,
{
    let mut details = chars_of("Synchronization error: ");
    push_all(&mut details, &chars_of(error));
    let mut message = chars_of("Synchronization failed: ");
    push_all(&mut message, &chars_of(error));
    (
        SyncEvent {
            timestamp,
            event_type: "error".to_string(),
            details: string_from_chars(details),
        },
        notice("❌ Synchronization Error", string_from_chars(message), "error"),
    )
}

/// The status when the first synchronization failed with `error`, or took
/// too long (`error` absent).
pub fn initial_sync_failure(error: Option<&str>) -> (r: String)
    ensures
        r@ == match error {
            Some(e) => "❌ Initial sync error: "@ + e@,
            None => "❌ Timeout exceeded (30s) - folder with too many files?"@,
        },
{
    match error {
        Some(e) => {
            let mut out = chars_of("❌ Initial sync error: ");
            push_all(&mut out, &chars_of(e));
            string_from_chars(out)
        },
        None => "❌ Timeout exceeded (30s) - folder with too many files?".to_string(),
    }
}

/// The values of a history event: time stamp, kind and details.
pub open spec fn event_view(e: SyncEvent) -> (Seq<char>, Seq<char>, Seq<char>) {
    (e.timestamp@, e.event_type@, e.details@)
}

/// The values of a history.
pub open spec fn events_view(h: Seq<SyncEvent>) -> Seq<(Seq<char>, Seq<char>, Seq<char>)> {
    h.map_values(|e: SyncEvent| event_view(e))
}

/// The values of a notification: title, message and kind.
pub open spec fn notice_view(n: SyncNotice) -> (Seq<char>, Seq<char>, Seq<char>) {
    (n.title@, n.message@, n.kind@)
}

/// The values of an optional notification.
pub open spec fn opt_notice_view(n: Option<SyncNotice>) -> Option<(Seq<char>, Seq<char>, Seq<char>)> {
    match n {
        Some(x) => Some(notice_view(x)),
        None => None,
    }
}

fn push_event(history: &mut Vec<SyncEvent>, event: SyncEvent)
    ensures
        events_view(final(history)@) == history_after(events_view(old(history)@), event_view(event)),
{
    let ghost e = event_view(event);
    push_history_event(history, event);
    proof {
        let h = events_view(old(history)@);
        assert(events_view(old(history)@.push(event)) =~= h.push(e));
        if h.len() + 1 > HISTORY_LIMIT {
            assert(events_view(old(history)@.push(event).drop_first()) =~= h.push(e).drop_first());
        }
    }
}

/// One synchronisation pass of the monitor ended with `result` (the number
/// of files it saw, or its error) at the time `stamp`; `notify` tells
/// whether notifications are sent. A growth in files is counted, recorded
/// in the history as `file_synced` and notified, and asks for an automatic
/// backup (the first value); no growth changes nothing; a failed pass is
/// counted as an error, recorded and notified. The second value is the
/// notification to send.
pub fn on_sync_result(
    counters: &mut SyncCounters,
    history: &mut Vec<SyncEvent>,
    result: Result<usize, String>,
    stamp: String,
    notify: bool,
) -> (r: (bool, Option<SyncNotice>))
    requires
        match result {
            Ok(n) => n > old(counters).last_count ==> old(counters).files_changed + (n - old(
                counters,
            ).last_count) <= usize::MAX,
            Err(_) => old(counters).sync_errors < usize::MAX,
        },
    ensures
        final(counters).backups_created == old(counters).backups_created,
        match result {
            Ok(n) => if n > old(counters).last_count {
                let changes = (n - old(counters).last_count) as nat;
                &&& r.0
                &&& final(counters).last_count == n
                &&& final(counters).files_changed == old(counters).files_changed + changes
                &&& final(counters).sync_errors == old(counters).sync_errors
                &&& events_view(final(history)@) == history_after(
                    events_view(old(history)@),
                    (stamp@, "file_synced"@, decimal(changes) + " file(s) synchronized"@),
                )
                &&& opt_notice_view(r.1) == (if notify {
                    Some(
                        (
                            "📄 Files Synchronized"@,
                            decimal(changes) + " file(s) successfully synchronized"@,
                            "success"@,
                        ),
                    )
                } else {
                    None
                })
            } else {
                &&& !r.0
                &&& r.1 is None
                &&& final(counters).last_count == old(counters).last_count
                &&& final(counters).files_changed == old(counters).files_changed
                &&& final(counters).sync_errors == old(counters).sync_errors
                &&& final(history)@ == old(history)@
            },
            Err(e) => {
                &&& !r.0
                &&& final(counters).last_count == old(counters).last_count
                &&& final(counters).files_changed == old(counters).files_changed
                &&& final(counters).sync_errors == old(counters).sync_errors + 1
                &&& events_view(final(history)@) == history_after(
                    events_view(old(history)@),
                    (stamp@, "error"@, "Synchronization error: "@ + e@),
                )
                &&& opt_notice_view(r.1) == (if notify {
                    Some(("❌ Synchronization Error"@, "Synchronization failed: "@ + e@, "error"@))
                } else {
                    None
                })
            },
        },
{
    match result {
        Ok(n) => match counters.record_sync(n) {
            Some(changes) => {
                let (event, note) = files_synced_event(stamp, changes);
                push_event(history, event);
                (true, if notify { Some(note) } else { None })
            },
            None => (false, None),
        },
        Err(e) => {
            counters.record_sync_error();
            let (event, note) = sync_failed_event(stamp, e.as_str());
            push_event(history, event);
            (false, if notify { Some(note) } else { None })
        },
    }
}

/// The automatic backup asked for by a synchronisation ended with `outcome`
/// (the backup's name, or a failure) at the time `stamp`. A backup made is
/// counted, recorded as `backup_created`, shown in the status (the first
/// value) and notified; a failed one is counted as an error, recorded and
/// notified. The second value is the notification to send when `notify`.
pub fn on_backup_result(
    counters: &mut SyncCounters,
    history: &mut Vec<SyncEvent>,
    outcome: Result<String, ()>,
    stamp: String,
    notify: bool,
) -> (r: (Option<String>, Option<SyncNotice>))
    requires
        outcome is Ok ==> old(counters).backups_created < usize::MAX,
        outcome is Err ==> old(counters).sync_errors < usize::MAX,
    ensures
        final(counters).last_count == old(counters).last_count,
        final(counters).files_changed == old(counters).files_changed,
        match outcome {
            Ok(name) => {
                &&& final(counters).backups_created == old(counters).backups_created + 1
                &&& final(counters).sync_errors == old(counters).sync_errors
                &&& events_view(final(history)@) == history_after(
                    events_view(old(history)@),
                    (stamp@, "backup_created"@, "Automatic backup created successfully"@),
                )
                &&& r.0 matches Some(status) && status@ == "✅ "@ + name@
                &&& opt_notice_view(r.1) == (if notify {
                    Some(
                        (
                            "💾 Backup Created"@,
                            "Backup '"@ + name@ + "' created successfully and encrypted"@,
                            "success"@,
                        ),
                    )
                } else {
                    None
                })
            },
            Err(()) => {
                &&& final(counters).backups_created == old(counters).backups_created
                &&& final(counters).sync_errors == old(counters).sync_errors + 1
                &&& events_view(final(history)@) == history_after(
                    events_view(old(history)@),
                    (stamp@, "error"@, "Failed to create backup"@),
                )
                &&& r.0 is None
                &&& opt_notice_view(r.1) == (if notify {
                    Some(
                        (
                            "❌ Backup Error"@,
                            "Failed to create automatic backup - check permissions"@,
                            "error"@,
                        ),
                    )
                } else {
                    None
                })
            },
        },
{
    match outcome {
        Ok(name) => {
            counters.record_backup(true);
            let (status, event, note) = backup_created_event(stamp, name.as_str());
            push_event(history, event);
            (Some(status), if notify { Some(note) } else { None })
        },
        Err(()) => {
            counters.record_backup(false);
            let (event, note) = backup_failed_event(stamp);
            push_event(history, event);
            (None, if notify { Some(note) } else { None })
        },
    }
}

/// Names whether the regular expression `pattern` matches somewhere in
/// `haystack`, as `regex::Regex::new` and `Regex::is_match` decide; nothing
/// when `pattern` is not a valid expression.
pub uninterp spec fn pattern_match(pattern: Seq<char>, haystack: Seq<char>) -> Option<bool>;

/// Compiles `pattern` with `regex::Regex::new` and runs `is_match` on
/// `haystack`; the result is the named value `pattern_match`.
#[verifier::external_body]
fn regex_is_match(pattern: &str, haystack: &str) -> (r: Option<bool>)
    ensures
        r == pattern_match(pattern@, haystack@),
{
    match regex::Regex::new(pattern) {
        Ok(re) => Some(re.is_match(haystack)),
        Err(_) => None,
    }
}

/// The patterns, in order, that match `path`.
pub open spec fn matching_patterns(patterns: Seq<Seq<char>>, path: Seq<char>) -> Seq<Seq<char>>
    decreases patterns.len(),
{
    if patterns.len() == 0 {
        seq![]
    } else if pattern_match(patterns.last(), path) == Some(true) {
        matching_patterns(patterns.drop_last(), path).push(patterns.last())
    } else {
        matching_patterns(patterns.drop_last(), path)
    }
}

/// The texts joined with `, ` between them.
pub open spec fn comma_joined(v: Seq<Seq<char>>) -> Seq<char>
    decreases v.len(),
{
    if v.len() == 0 {
        seq![]
    } else if v.len() == 1 {
        v[0]
    } else {
        comma_joined(v.drop_last()) + ", "@ + v.last()
    }
}

/// The answer of the pattern tester for the path typed as `input`.
pub open spec fn pattern_test_text(patterns: Seq<Seq<char>>, input: Seq<char>) -> Seq<char> {
    let path = trimmed(input);
    let m = matching_patterns(patterns, path);
    if path.len() == 0 {
        "❌ Enter a file path to test"@
    } else if m.len() == 0 {
        "✅ '"@ + path + "' would NOT be ignored"@
    } else {
        "🚫 '"@ + path + "' would be ignored by: "@ + comma_joined(m)
    }
}

/// Tells whether the path typed as `input` would be ignored, and by which
/// patterns; patterns that are not valid expressions match nothing.
pub fn test_pattern(patterns: &Vec<String>, input: &str) -> (r: String)
    ensures
        r@ == pattern_test_text(texts(patterns@), input@),
{
    let path = trim_text(input);
    if path.as_str().unicode_len() == 0 {
        return "❌ Enter a file path to test".to_string();
    }
    let ghost pv = texts(patterns@);
    let mut joined: Vec<char> = Vec::new();
    let mut count: usize = 0;
    let mut i: usize = 0;
    while i < patterns.len()
        invariant
            i <= patterns@.len(),
            pv == texts(patterns@),
            count == matching_patterns(pv.take(i as int), path@).len(),
            joined@ == comma_joined(matching_patterns(pv.take(i as int), path@)),
            count <= i,
        decreases patterns@.len() - i,
    {
        let hit = regex_is_match(patterns[i].as_str(), path.as_str());
        proof {
            assert(pv.take(i + 1).drop_last() =~= pv.take(i as int));
            assert(pv.take(i + 1).last() == pv[i as int]);
        }
        if hit == Some(true) {
            let ghost before = matching_patterns(pv.take(i as int), path@);
            if count > 0 {
                push_all(&mut joined, &chars_of(", "));
            }
            push_all(&mut joined, &chars_of(patterns[i].as_str()));
            count = count + 1;
            proof {
                let after = matching_patterns(pv.take(i + 1), path@);
                assert(after == before.push(pv[i as int]));
                assert(after.drop_last() =~= before);
                if before.len() == 0 {
                    assert(joined@ =~= after[0]);
                }
            }
        }
        i = i + 1;
    }
    assert(pv.take(patterns@.len() as int) =~= pv);
    let mut out: Vec<char> = Vec::new();
    if count == 0 {
        push_all(&mut out, &chars_of("✅ '"));
        push_all(&mut out, &chars_of(path.as_str()));
        push_all(&mut out, &chars_of("' would NOT be ignored"));
    } else {
        push_all(&mut out, &chars_of("🚫 '"));
        push_all(&mut out, &chars_of(path.as_str()));
        push_all(&mut out, &chars_of("' would be ignored by: "));
        push_all(&mut out, &joined);
    }
    string_from_chars(out)
}

} // verus!
