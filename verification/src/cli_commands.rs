//! The commands of the `rsb` command line, as values, and the decisions
//! the command line takes while running them.

use vstd::prelude::*;
use crate::numeric::{chars_of, decimal, push_decimal};
use crate::profile_listing::OutputFormat;
use crate::text::{push_all, string_from_chars};
use crate::text_lines::{trim_chars, trimmed};
use crate::auth::login_flow::is_success;
use crate::config_paths::{toml_text_field, toml_value_text};

verus! {

/// The formats of `rsb list-profiles --format`.
#[derive(PartialEq, Eq, Structural, Debug, Clone, Copy)]
pub enum ListProfilesFormat {
    Table,
    Json,
    Csv,
}

/// The listing format of a `--format` choice.
pub fn output_format(format: ListProfilesFormat) -> (r: OutputFormat)
    ensures
        r == match format {
            ListProfilesFormat::Table => OutputFormat::Table,
            ListProfilesFormat::Json => OutputFormat::Json,
            ListProfilesFormat::Csv => OutputFormat::Csv,
        },
{
    match format {
        ListProfilesFormat::Table => OutputFormat::Table,
        ListProfilesFormat::Json => OutputFormat::Json,
        ListProfilesFormat::Csv => OutputFormat::Csv,
    }
}

/// `rsb auth ...`: the security-key credentials.
pub enum Fido2Command {
    Register { storage: Option<String> },
    Authenticate { storage: Option<String> },
    List { storage: Option<String> },
    Delete { user_id: String, storage: Option<String> },
    GenerateCodes { user_id: String, storage: Option<String>, output: Option<String>, display: bool },
    ListCodes { user_id: String, storage: Option<String> },
    ExportCodes { user_id: String, output: String, format: String, storage: Option<String> },
}

/// Where the credentials are stored when no default location is known.
pub open spec fn fallback_storage() -> Seq<char> {
    ".rs-shield/fido2_credentials.json"@
}

impl Fido2Command {
    /// The `--storage` option of the command.
    pub open spec fn storage_option(&self) -> Option<String> {
        match self {
            Fido2Command::Register { storage } => *storage,
            Fido2Command::Authenticate { storage } => *storage,
            Fido2Command::List { storage } => *storage,
            Fido2Command::Delete { storage, .. } => *storage,
            Fido2Command::GenerateCodes { storage, .. } => *storage,
            Fido2Command::ListCodes { storage, .. } => *storage,
            Fido2Command::ExportCodes { storage, .. } => *storage,
        }
    }

    /// The credentials file: the `--storage` option, else the security-key
    /// manager's default location `default_path`, else a fixed relative path.
    pub fn get_storage_path(&self, default_path: Option<String>) -> (r: String)
        ensures
            r@ == match self.storage_option() {
                Some(s) => s@,
                None => match default_path {
                    Some(d) => d@,
                    None => fallback_storage(),
                },
            },
    {
        let storage = match self {
            Fido2Command::Register { storage } => storage,
            Fido2Command::Authenticate { storage } => storage,
            Fido2Command::List { storage } => storage,
            Fido2Command::Delete { storage, .. } => storage,
            Fido2Command::GenerateCodes { storage, .. } => storage,
            Fido2Command::ListCodes { storage, .. } => storage,
            Fido2Command::ExportCodes { storage, .. } => storage,
        };
        match storage {
            Some(s) => s.clone(),
            None => match default_path {
                Some(d) => d,
                None => ".rs-shield/fido2_credentials.json".to_string(),
            },
        }
    }
}

/// Checks the format of an export of recovery codes: `text` or `json`.
pub fn check_export_format(format: &str) -> (r: Result<(), String>)
    ensures
        match r {
            Ok(()) => format@ == "text"@ || format@ == "json"@,
            Err(m) => format@ != "text"@ && format@ != "json"@ && m@
                == "❌ Invalid format. Use 'text' or 'json'"@,
        },
{
    if crate::text::str_equal(format, "text") || crate::text::str_equal(format, "json") {
        Ok(())
    } else {
        Err("❌ Invalid format. Use 'text' or 'json'".to_string())
    }
}

/// The codes one per line.
pub open spec fn codes_text(codes: Seq<Seq<char>>) -> Seq<char>
    decreases codes.len(),
{
    if codes.len() == 0 {
        seq![]
    } else if codes.len() == 1 {
        codes[0]
    } else {
        codes_text(codes.drop_last()) + "\n"@ + codes.last()
    }
}

/// The file in which generated recovery codes are saved.
pub open spec fn recovery_codes_text(user_id: Seq<char>, generated: Seq<char>, codes: Seq<Seq<char>>) -> Seq<
    char,
> {
    "RS Shield - Recovery Codes\nUser: "@ + user_id + "\nGenerated: "@ + generated
        + "\n════════════════════════════════════════\n\n"@ + codes_text(codes)
}

/// The content of the file that saves the recovery codes of `user_id`,
/// generated at the local time `generated`.
pub fn recovery_codes_document(user_id: &str, generated: &str, codes: &Vec<String>) -> (r: String)
    ensures
        r@ == recovery_codes_text(user_id@, generated@, crate::text_lines::texts(codes@)),
{
    let ghost cv = crate::text_lines::texts(codes@);
    let mut out = chars_of("RS Shield - Recovery Codes\nUser: ");
    push_all(&mut out, &chars_of(user_id));
    push_all(&mut out, &chars_of("\nGenerated: "));
    push_all(&mut out, &chars_of(generated));
    push_all(&mut out, &chars_of("\n════════════════════════════════════════\n\n"));
    let ghost head = out@;
    let mut i: usize = 0;
    while i < codes.len()
        invariant
            i <= codes@.len(),
            cv == crate::text_lines::texts(codes@),
            out@ == head + codes_text(cv.take(i as int)),
        decreases codes@.len() - i,
    {
        let ghost before = out@;
        if i > 0 {
            push_all(&mut out, &chars_of("\n"));
        }
        push_all(&mut out, &chars_of(codes[i].as_str()));
        proof {
            assert(cv.take(i + 1).drop_last() =~= cv.take(i as int));
            if i == 0 {
                assert(codes_text(cv.take(0)) == Seq::<char>::empty());
                assert(out@ =~= head + cv.take(1)[0]);
            } else {
                assert(out@ =~= head + (codes_text(cv.take(i as int)) + "\n"@ + cv[i as int]));
            }
        }
        i = i + 1;
    }
    assert(cv.take(codes@.len() as int) =~= cv);
    string_from_chars(out)
}

/// The line that shows the recovery code numbered `number` (from 1): the
/// number right-aligned in two columns (as `{:2}` writes it).
pub fn recovery_code_line(number: usize, code: &str) -> (r: String)
    ensures
        r@ == (if number < 10 {
            " "@
        } else {
            seq![]
        }) + decimal(number as nat) + ". "@ + code@,
{
    let mut out: Vec<char> = Vec::new();
    if number < 10 {
        out.push(' ');
    }
    push_decimal(&mut out, number as u64);
    push_all(&mut out, &chars_of(". "));
    push_all(&mut out, &chars_of(code));
    proof {
        if number < 10 {
            assert(seq![' '] =~= " "@) by {
                reveal_strlit(" ");
            }
        }
    }
    string_from_chars(out)
}

/// `rsb snapshots ...`: the snapshots of a backup.
pub enum SnapshotCommand {
    List { config: Option<String>, backup: Option<String>, key: Option<String> },
    Show { config: Option<String>, backup: Option<String>, id: String, key: Option<String> },
    Delete { config: Option<String>, backup: Option<String>, id: String },
    Diff {
        config: Option<String>,
        backup: Option<String>,
        from: String,
        to: String,
        key: Option<String>,
    },
}

/// The manifest of the snapshot `id`, relative to the backup folder.
pub fn snapshot_manifest_path(id: &str) -> (r: String)
    ensures
        r@ == "snapshots/"@ + id@ + ".toml"@,
{
    let mut out = chars_of("snapshots/");
    push_all(&mut out, &chars_of(id));
    push_all(&mut out, &chars_of(".toml"));
    string_from_chars(out)
}

/// `rsb config ...`: the settings of the command line.
pub enum ConfigCommand {
    SetPassword,
    S3Credentials {
        bucket: String,
        region: String,
        endpoint: Option<String>,
        access_key: Option<String>,
        secret_key: Option<String>,
    },
    List,
    Reset { confirm: bool },
}

/// The content of the master password file for a password typed twice; the
/// two must agree.
pub fn password_file_content(password: &str, confirm: &str) -> (r: Result<String, String>)
    ensures
        match r {
            Ok(c) => password@ == confirm@ && c@ == "hashed:"@ + password@,
            Err(m) => password@ != confirm@ && m@ == "❌ Passwords do not match"@,
        },
{
    if !crate::text::str_equal(password, confirm) {
        return Err("❌ Passwords do not match".to_string());
    }
    let mut out = chars_of("hashed:");
    push_all(&mut out, &chars_of(password));
    Ok(string_from_chars(out))
}

/// The keys and values of the S3 settings file, in the order they are set:
/// bucket and region, then the endpoint and keys that are given.
pub open spec fn s3_settings(
    bucket: Seq<char>,
    region: Seq<char>,
    endpoint: Option<Seq<char>>,
    access_key: Option<Seq<char>>,
    secret_key: Option<Seq<char>>,
) -> Seq<(Seq<char>, Seq<char>)> {
    seq![("bucket"@, bucket), ("region"@, region)] + (match endpoint {
        Some(e) => seq![("endpoint"@, e)],
        None => seq![],
    }) + (match access_key {
        Some(k) => seq![("access_key"@, k)],
        None => seq![],
    }) + (match secret_key {
        Some(s) => seq![("secret_key"@, s)],
        None => seq![],
    })
}

fn push_setting(v: &mut Vec<(String, String)>, key: &str, value: &String)
    ensures
        crate::text_order::pair_texts(final(v)@) == crate::text_order::pair_texts(old(v)@).push(
            (key@, value@),
        ),
{
    v.push((key.to_string(), value.clone()));
    assert(crate::text_order::pair_texts(v@) =~= crate::text_order::pair_texts(old(v)@).push(
        (key@, value@),
    ));
}

/// The keys and values that `rsb config s3-credentials` saves.
pub fn s3_settings_entries(
    bucket: &String,
    region: &String,
    endpoint: &Option<String>,
    access_key: &Option<String>,
    secret_key: &Option<String>,
) -> (r: Vec<(String, String)>)
    ensures
        crate::text_order::pair_texts(r@) == s3_settings(
            bucket@,
            region@,
            crate::operations_helpers::opt_view(*endpoint),
            crate::operations_helpers::opt_view(*access_key),
            crate::operations_helpers::opt_view(*secret_key),
        ),
{
    let mut v: Vec<(String, String)> = Vec::new();
    push_setting(&mut v, "bucket", bucket);
    push_setting(&mut v, "region", region);
    if let Some(e) = endpoint {
        push_setting(&mut v, "endpoint", e);
    }
    if let Some(k) = access_key {
        push_setting(&mut v, "access_key", k);
    }
    if let Some(s) = secret_key {
        push_setting(&mut v, "secret_key", s);
    }
    proof {
        assert(crate::text_order::pair_texts(v@) =~= s3_settings(
            bucket@,
            region@,
            crate::operations_helpers::opt_view(*endpoint),
            crate::operations_helpers::opt_view(*access_key),
            crate::operations_helpers::opt_view(*secret_key),
        ));
    }
    v
}

/// Names the text that `toml::to_string_pretty` writes for a `toml::Table`
/// holding the string `entries`.
pub uninterp spec fn toml_table_text(entries: Seq<(Seq<char>, Seq<char>)>) -> Seq<char>;

/// Builds a `toml::Table` of the string `entries` and writes it with
/// `toml::to_string_pretty`; the result is the named value `toml_table_text`.
#[verifier::external_body]
pub(crate) fn toml_settings_text(entries: &Vec<(String, String)>) -> (r: String)
    ensures
        r@ == toml_table_text(crate::text_order::pair_texts(entries@)),
{
    let mut table = toml::Table::new();
    for (k, v) in entries.iter() {
        table.insert(k.clone(), toml::Value::String(v.clone()));
    }
    toml::to_string_pretty(&table).unwrap_or_default()
}

/// The S3 settings file that `rsb config s3-credentials` writes: the TOML
/// table of the bucket, the region, and the endpoint and keys that are given.
pub fn s3_settings_file(
    bucket: &String,
    region: &String,
    endpoint: &Option<String>,
    access_key: &Option<String>,
    secret_key: &Option<String>,
) -> (r: String)
    ensures
        r@ == toml_table_text(
            s3_settings(
                bucket@,
                region@,
                crate::operations_helpers::opt_view(*endpoint),
                crate::operations_helpers::opt_view(*access_key),
                crate::operations_helpers::opt_view(*secret_key),
            ),
        ),
{
    toml_settings_text(&s3_settings_entries(bucket, region, endpoint, access_key, secret_key))
}

/// The stored session token as the command line reads it: trimmed, and
/// not empty.
pub fn stored_token(content: &str) -> (r: Result<String, String>)
    ensures
        match r {
            Ok(t) => t@ == trimmed(content@) && t@.len() > 0,
            Err(m) => trimmed(content@).len() == 0 && m@ == "❌ Invalid authentication token"@,
        },
{
    let t = trim_chars(&chars_of(content));
    if t.len() == 0 {
        Err("❌ Invalid authentication token".to_string())
    } else {
        Ok(string_from_chars(t))
    }
}

/// Whether the command line goes on with its token after asking the server
/// about it: when the server answered with a success, or could not be
/// reached (only the local check then counts).
pub fn server_token_check(status: Option<u16>, token: String) -> (r: Result<String, String>)
    ensures
        match status {
            Some(s) => if is_success(s) {
                r matches Ok(t) && t@ == token@
            } else {
                r matches Err(m) && m@ == "❌ Session revoked or expired on server. Please login again."@
            },
            None => r matches Ok(t) && t@ == token@,
        },
{
    match status {
        Some(s) => if 200 <= s && s < 300 {
            Ok(token)
        } else {
            Err("❌ Session revoked or expired on server. Please login again.".to_string())
        },
        None => Ok(token),
    }
}

/// Whether the answer to the storage question chooses S3 (`1`, around
/// whitespace).
pub fn chooses_s3(answer: &str) -> (r: bool)
    ensures
        r == (trimmed(answer@) == "1"@),
{
    let t = trim_chars(&chars_of(answer));
    crate::text::chars_equal(&t, &chars_of("1"))
}

/// How a backup command runs.
pub struct BackupRunOptions {
    pub mode: String,
    pub resume: bool,
    /// Overrides the profile's compression level.
    pub compression_override: Option<u8>,
    pub threads: Option<usize>,
    /// Whether the number of threads is announced.
    pub announce_threads: bool,
    pub verify_after: bool,
}

/// How `rsb backup` runs: incremental unless a mode is given, resuming unless
/// told not to, uncompressed with `--no-compress`, with the threads of the
/// command line or else of the profile, and verified afterwards only when
/// asked and not a dry run.
pub fn backup_run_options(
    mode: Option<&str>,
    no_resume: bool,
    no_compress: bool,
    threads: Option<usize>,
    profile_threads: Option<usize>,
    verify: bool,
    dry_run: bool,
) -> (r: BackupRunOptions)
    ensures
        r.mode@ == match mode {
            Some(m) => m@,
            None => "incremental"@,
        },
        r.resume == !no_resume,
        r.compression_override == (if no_compress {
            Some(0u8)
        } else {
            None
        }),
        r.threads == (match threads {
            Some(t) => Some(t),
            None => profile_threads,
        }),
        r.announce_threads == (r.threads matches Some(t) && t > 4),
        r.verify_after == (verify && !dry_run),
{
    let effective = match threads {
        Some(t) => Some(t),
        None => profile_threads,
    };
    BackupRunOptions {
        mode: match mode {
            Some(m) => m.to_string(),
            None => "incremental".to_string(),
        },
        resume: !no_resume,
        compression_override: if no_compress {
            Some(0)
        } else {
            None
        },
        threads: effective,
        announce_threads: match effective {
            Some(t) => t > 4,
            None => false,
        },
        verify_after: verify && !dry_run,
    }
}

/// Where a restore goes when no target is given: next to the source, with
/// `_restored` appended.
pub fn restore_target(target: Option<&str>, source_path: &str) -> (r: String)
    ensures
        r@ == match target {
            Some(t) => t@,
            None => source_path@ + "_restored"@,
        },
{
    match target {
        Some(t) => t.to_string(),
        None => {
            let mut out = chars_of(source_path);
            push_all(&mut out, &chars_of("_restored"));
            string_from_chars(out)
        },
    }
}

/// Whether a verification is fast (`--quick` or `--fast`), and what it says
/// about its mode.
pub fn verify_mode(quick: bool, fast: bool) -> (r: (bool, Option<String>))
    ensures
        r.0 == (quick || fast),
        crate::operations_helpers::opt_view(r.1) == (if quick && fast {
            Some("Using quick verification (--quick takes precedence)"@)
        } else if quick {
            Some("Using quick verification mode"@)
        } else if fast {
            Some("Using fast verification mode (hash only, no decryption)"@)
        } else {
            None
        }),
{
    let message = if quick && fast {
        Some("Using quick verification (--quick takes precedence)".to_string())
    } else if quick {
        Some("Using quick verification mode".to_string())
    } else if fast {
        Some("Using fast verification mode (hash only, no decryption)".to_string())
    } else {
        None
    };
    (quick || fast, message)
}

/// What `rsb prune` announces before it prunes.
pub fn prune_announcement(keep: usize, dry_run: bool) -> (r: String)
    ensures
        r@ == (if dry_run {
            "DRY RUN MODE: Would keep last "@ + decimal(keep as nat) + " backups"@
        } else {
            "🧹 Keeping last "@ + decimal(keep as nat) + " backups..."@
        }),
{
    let mut out = if dry_run {
        chars_of("DRY RUN MODE: Would keep last ")
    } else {
        chars_of("🧹 Keeping last ")
    };
    push_decimal(&mut out, keep as u64);
    if dry_run {
        push_all(&mut out, &chars_of(" backups"));
    } else {
        push_all(&mut out, &chars_of(" backups..."));
    }
    string_from_chars(out)
}

/// The lines `rsb schedule` prints for the executable `exe` and the profile
/// `config`: a crontab line, a systemd service, or a hint for other formats.
pub open spec fn schedule_text(format: Seq<char>, exe: Seq<char>, config: Seq<char>) -> Seq<Seq<char>> {
    let command = "\""@ + exe + "\" backup \""@ + config + "\" --key \"YOUR_PASSWORD\""@;
    if format == "cron"@ {
        seq!["# Add this line to your crontab (crontab -e):"@, "0 3 * * * "@ + command]
    } else if format == "systemd"@ {
        seq!["# Example rsb-backup.service:"@, "[Service]\nType=oneshot\nExecStart="@ + command]
    } else {
        seq!["Unknown format. Use 'cron' or 'systemd'."@]
    }
}

/// The lines that `rsb schedule` prints.
pub fn schedule_lines(format: &str, exe: &str, config: &str) -> (r: Vec<String>)
    ensures
        crate::text_lines::texts(r@) == schedule_text(format@, exe@, config@),
{
    let mut command = chars_of("\"");
    push_all(&mut command, &chars_of(exe));
    push_all(&mut command, &chars_of("\" backup \""));
    push_all(&mut command, &chars_of(config));
    push_all(&mut command, &chars_of("\" --key \"YOUR_PASSWORD\""));
    let mut out: Vec<String> = Vec::new();
    if crate::text::str_equal(format, "cron") {
        out.push("# Add this line to your crontab (crontab -e):".to_string());
        let mut line = chars_of("0 3 * * * ");
        push_all(&mut line, &command);
        out.push(string_from_chars(line));
    } else if crate::text::str_equal(format, "systemd") {
        out.push("# Example rsb-backup.service:".to_string());
        let mut line = chars_of("[Service]\nType=oneshot\nExecStart=");
        push_all(&mut line, &command);
        out.push(string_from_chars(line));
    } else {
        out.push("Unknown format. Use 'cron' or 'systemd'.".to_string());
    }
    proof {
        assert(crate::text_lines::texts(out@) =~= schedule_text(format@, exe@, config@));
    }
    out
}

/// The scheduling command that the desktop's schedule screen shows for the
/// command-line executable `exe` and the profile `config`: a crontab line for
/// `cron`, else a systemd service; the key is added when one is typed.
pub open spec fn desktop_schedule_text(format: Seq<char>, exe: Seq<char>, config: Seq<char>, key: Seq<
    char,
>) -> Seq<char> {
    let key_part = if key.len() > 0 {
        " --key \""@ + key + "\""@
    } else {
        seq![]
    };
    let command = exe + " backup "@ + config + key_part;
    if format == "cron"@ {
        "0 3 * * * "@ + command
    } else {
        "[Service]\nType=oneshot\nExecStart="@ + command
    }
}

/// The scheduling command of the desktop's schedule screen.
pub fn desktop_schedule_command(format: &str, exe: &str, config: &str, key: &str) -> (r: String)
    ensures
        r@ == desktop_schedule_text(format@, exe@, config@, key@),
{
    let mut out = if crate::text::str_equal(format, "cron") {
        chars_of("0 3 * * * ")
    } else {
        chars_of("[Service]\nType=oneshot\nExecStart=")
    };
    push_all(&mut out, &chars_of(exe));
    push_all(&mut out, &chars_of(" backup "));
    push_all(&mut out, &chars_of(config));
    if key.unicode_len() > 0 {
        push_all(&mut out, &chars_of(" --key \""));
        push_all(&mut out, &chars_of(key));
        push_all(&mut out, &chars_of("\""));
    }
    string_from_chars(out)
}

/// The address that a health-check ping goes to: the configured address
/// followed by the ping's suffix (`/start`, `/fail` or nothing).
pub fn healthcheck_target(url: &Option<String>, suffix: &str) -> (r: Option<String>)
    ensures
        crate::operations_helpers::opt_view(r) == match url {
            Some(u) => Some(u@ + suffix@),
            None => None,
        },
{
    match url {
        Some(u) => {
            let mut out = chars_of(u.as_str());
            push_all(&mut out, &chars_of(suffix));
            Some(string_from_chars(out))
        },
        None => None,
    }
}

/// Whether the watcher copies a file to the synchronized folder: when the
/// copy is missing, or the file was modified after it. A modification time
/// that cannot be read counts as the epoch; times are in nanoseconds since
/// the epoch.
pub fn should_copy(copy_exists: bool, modified: Option<i128>, copy_modified: Option<i128>) -> (r:
    bool)
    ensures
        r == (!copy_exists || match (modified, copy_modified) {
            (Some(a), Some(b)) => a > b,
            (Some(a), None) => a > 0,
            (None, Some(b)) => 0 > b,
            (None, None) => false,
        }),
{
    if !copy_exists {
        return true;
    }
    let a = match modified {
        Some(t) => t,
        None => 0,
    };
    let b = match copy_modified {
        Some(t) => t,
        None => 0,
    };
    a > b
}

/// The encryption password of a new profile: none without encryption, the
/// one given on the command line, else the one typed twice at the prompt,
/// which must agree.
pub fn encryption_password(encrypt: bool, password: Option<String>, prompted: Option<(String, String)>) -> (r:
    Result<Option<String>, String>)
    requires
        encrypt && password is None ==> prompted is Some,
    ensures
        !encrypt ==> r matches Ok(None),
        encrypt && password is Some ==> r == Ok::<Option<String>, String>(password),
        encrypt && password is None ==> match prompted {
            Some((p, c)) => if p@ == c@ {
                r matches Ok(Some(q)) && q@ == p@
            } else {
                r matches Err(m) && m@ == "Passwords do not match"@
            },
            None => false,
        },
{
    if !encrypt {
        return Ok(None);
    }
    match password {
        Some(p) => Ok(Some(p)),
        None => match prompted {
            Some((p, c)) => if crate::text::str_equal(p.as_str(), c.as_str()) {
                Ok(Some(p))
            } else {
                Err("Passwords do not match".to_string())
            },
            None => Err("Passwords do not match".to_string()),
        },
    }
}

/// What `rsb watch` has done so far.
pub struct WatchTotals {
    pub total_changes: u64,
    pub backups: u64,
}

impl WatchTotals {
    /// Nothing done yet.
    pub fn new() -> (r: WatchTotals)
        ensures
            r.total_changes == 0,
            r.backups == 0,
    {
        WatchTotals { total_changes: 0, backups: 0 }
    }

    /// Counts a synchronization that copied `copied` files, and whether a
    /// backup then succeeded (a backup runs only when something was copied).
    pub fn record(&mut self, copied: u64, backup_succeeded: bool)
        requires
            old(self).total_changes + copied <= u64::MAX,
            old(self).backups < u64::MAX,
        ensures
            final(self).total_changes == old(self).total_changes + copied,
            final(self).backups == old(self).backups + (if copied > 0 && backup_succeeded {
                1int
            } else {
                0int
            }),
    {
        self.total_changes = self.total_changes + copied;
        if copied > 0 && backup_succeeded {
            self.backups = self.backups + 1;
        }
    }

    /// The summary printed after every round.
    pub fn summary(&self) -> (r: String)
        ensures
            r@ == "📊 Total: "@ + decimal(self.total_changes as nat) + " changes detected, "@
                + decimal(self.backups as nat) + " backups created"@,
    {
        let mut out = chars_of("📊 Total: ");
        push_decimal(&mut out, self.total_changes);
        push_all(&mut out, &chars_of(" changes detected, "));
        push_decimal(&mut out, self.backups);
        push_all(&mut out, &chars_of(" backups created"));
        string_from_chars(out)
    }
}

/// The commands of `rsb`.
pub enum Commands {
    /// Create a new backup profile.
    CreateProfile {
        name: String,
        source: String,
        dest: String,
        mode: String,
        compression: u8,
        encrypt: bool,
        password: Option<String>,
        exclude: Option<String>,
        s3_bucket: Option<String>,
        s3_region: Option<String>,
        s3_endpoint: Option<String>,
        portable: bool,
    },
    /// Run a backup with an existing profile.
    Backup {
        config: String,
        mode: Option<String>,
        key: Option<String>,
        dry_run: bool,
        no_resume: bool,
        verify: bool,
        no_compress: bool,
        threads: Option<usize>,
        report: bool,
        healthcheck_url: Option<String>,
    },
    /// Restore a backup.
    Restore {
        config: Option<String>,
        backup: Option<String>,
        snapshot: Option<String>,
        target: String,
        files: Option<String>,
        date: Option<String>,
        key: Option<String>,
        force: bool,
        versioned: bool,
        verify: bool,
        report: bool,
    },
    /// Verify a backup.
    Verify {
        config: Option<String>,
        backup: Option<String>,
        snapshot: Option<String>,
        quiet: bool,
        quick: bool,
        fast: bool,
        report: bool,
        key: Option<String>,
    },
    /// Delete old snapshots.
    Prune {
        config: String,
        retention: Option<String>,
        keep_last: Option<usize>,
        dry_run: bool,
        quiet: bool,
        healthcheck_url: Option<String>,
    },
    /// Print scheduling commands.
    Schedule { config: String, format: String },
    /// Synchronize and back up changes as they happen.
    Watch {
        config: String,
        sync_to: String,
        key: String,
        interval: u64,
        healthcheck_url: Option<String>,
    },
    /// Run the authentication server.
    Server { port: u16 },
    /// Authenticate with a security key.
    Login { user_id: String, recovery: bool },
    /// Manage security-key credentials.
    Fido2(Fido2Command),
    /// Manage snapshots.
    Snapshots(SnapshotCommand),
    /// List backup profiles.
    ListProfiles { directory: Option<String>, format: ListProfilesFormat },
    /// Diagnose a backup folder.
    Diagnose { backup: String, key: Option<String>, verbose: bool, json: bool, repair: bool },
    /// Manage credentials and settings.
    Config(ConfigCommand),
}

/// The S3 lines of `rsb config list` for the settings file `content`: the
/// bucket, region and endpoint that it holds as strings; nothing when it is
/// not valid TOML.
pub open spec fn s3_summary_text(content: Seq<char>) -> Option<Seq<Seq<char>>> {
    match toml_value_text(content, "bucket"@) {
        Err(_) => None,
        Ok(b) => Some(
            seq!["\n📦 S3 Configuration:"@] + summary_line("   Bucket: "@, b) + summary_line(
                "   Region: "@,
                ok_or_none(toml_value_text(content, "region"@)),
            ) + summary_line(
                "   Endpoint: "@,
                ok_or_none(toml_value_text(content, "endpoint"@)),
            ),
        ),
    }
}

/// The value of a parse that is known to succeed.
pub open spec fn ok_or_none(r: Result<Option<Option<Seq<char>>>, Seq<char>>) -> Option<
    Option<Seq<char>>,
> {
    match r {
        Ok(v) => v,
        Err(_) => None,
    }
}

/// The line of a setting that holds a string, none otherwise.
pub open spec fn summary_line(label: Seq<char>, value: Option<Option<Seq<char>>>) -> Seq<Seq<char>> {
    match value {
        Some(Some(v)) => seq![label + v],
        _ => seq![],
    }
}

fn add_summary_line(out: &mut Vec<String>, label: &str, value: Result<Option<Option<String>>, String>)
    ensures
        crate::text_lines::texts(final(out)@) == crate::text_lines::texts(old(out)@) + summary_line(
            label@,
            match value {
                Ok(Some(Some(v))) => Some(Some(v@)),
                _ => None,
            },
        ),
{
    if let Ok(Some(Some(v))) = value {
        let mut line = chars_of(label);
        push_all(&mut line, &chars_of(v.as_str()));
        out.push(string_from_chars(line));
    }
    assert(crate::text_lines::texts(out@) =~= crate::text_lines::texts(old(out)@) + summary_line(
        label@,
        match value {
            Ok(Some(Some(v))) => Some(Some(v@)),
            _ => None,
        },
    ));
}

/// The S3 lines that `rsb config list` prints for the settings file `content`.
pub fn s3_summary_lines(content: &str) -> (r: Option<Vec<String>>)
    ensures
        match r {
            Some(v) => s3_summary_text(content@) == Some(crate::text_lines::texts(v@)),
            None => s3_summary_text(content@) is None,
        },
{
    let bucket = toml_text_field(content, "bucket");
    if bucket.is_err() {
        return None;
    }
    let mut out: Vec<String> = Vec::new();
    out.push("\n📦 S3 Configuration:".to_string());
    proof {
        assert(crate::text_lines::texts(out@) =~= seq!["\n📦 S3 Configuration:"@]);
    }
    add_summary_line(&mut out, "   Bucket: ", bucket);
    add_summary_line(&mut out, "   Region: ", toml_text_field(content, "region"));
    add_summary_line(&mut out, "   Endpoint: ", toml_text_field(content, "endpoint"));
    Some(out)
}

} // verus!
