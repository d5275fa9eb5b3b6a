//! How the command line finds the profile or the backup folder a command
//! works on: the `--config` and `--backup` options, or a profile found in
//! the current directory, and the destination folder named in a profile.

use vstd::prelude::*;
use crate::numeric::chars_of;
use crate::text::{ends_with_chars, push_all, seq_ends_with, string_from_chars};
use crate::auth::handlers::opt_string_view;

verus! {

/// What the command line saw of one entry of the current directory.
pub struct DirEntryInfo {
    pub path: String,
    pub is_file: bool,
    /// The entry's file name, when it is valid Unicode.
    pub file_name: Option<String>,
}

/// The entry is a file whose name ends with `.toml`.
pub open spec fn is_profile_file(e: DirEntryInfo) -> bool {
    e.is_file && match e.file_name {
        Some(n) => seq_ends_with(n@, ".toml"@),
        None => false,
    }
}

/// The paths of the profile files among `entries`, in order.
pub open spec fn profile_files(entries: Seq<DirEntryInfo>) -> Seq<Seq<char>>
    decreases entries.len(),
{
    if entries.len() == 0 {
        seq![]
    } else if is_profile_file(entries.last()) {
        profile_files(entries.drop_last()).push(entries.last().path@)
    } else {
        profile_files(entries.drop_last())
    }
}

/// The message of a missing backup folder.
pub open spec fn backup_not_found_text(path: Seq<char>) -> Seq<char> {
    "❌ Error: Backup path not found: "@ + path
}

/// The message of a missing profile.
pub open spec fn config_not_found_text(path: Seq<char>) -> Seq<char> {
    "❌ Error: Configuration file not found: "@ + path
}

/// The message when the current directory holds several profiles.
pub open spec fn several_profiles_text() -> Seq<char> {
    "❌ Error: Multiple .toml files found in current directory. Please specify --config"@
}

/// The message when nothing names a profile or a backup.
pub open spec fn no_profile_text() -> Seq<char> {
    "❌ Error: Either --config or --backup is required, or no config file found in current directory\n\nExamples:\n• rsb backup my-backup.toml\n• rsb backup --backup /path/to/backup\n• rsb backup --config my-backup.toml"@
}

fn message_with_path(prefix: &str, path: &str) -> (r: String)
    ensures
        r@ == prefix@ + path@,
{
    let mut out = chars_of(prefix);
    push_all(&mut out, &chars_of(path));
    string_from_chars(out)
}

/// The profile (or backup folder) a command works on, and whether it works on
/// a backup folder directly (portable mode). `--backup` wins over `--config`;
/// each must exist. Without either, the one profile file of the current
/// directory is taken; several, or none, are an error.
pub fn resolve_config_or_backup(
    config: Option<&str>,
    config_exists: bool,
    backup: Option<&str>,
    backup_exists: bool,
    entries: &Vec<DirEntryInfo>,
) -> (r: Result<(String, bool), String>)
    ensures
        match backup {
            Some(b) => if backup_exists {
                r matches Ok((p, portable)) && p@ == b@ && portable
            } else {
                r matches Err(m) && m@ == backup_not_found_text(b@)
            },
            None => match config {
                Some(c) => if config_exists {
                    r matches Ok((p, portable)) && p@ == c@ && !portable
                } else {
                    r matches Err(m) && m@ == config_not_found_text(c@)
                },
                None => {
                    let found = profile_files(entries@);
                    if found.len() == 1 {
                        r matches Ok((p, portable)) && p@ == found[0] && !portable
                    } else if found.len() > 1 {
                        r matches Err(m) && m@ == several_profiles_text()
                    } else {
                        r matches Err(m) && m@ == no_profile_text()
                    }
                },
            },
        },
{
    if let Some(b) = backup {
        if backup_exists {
            return Ok((b.to_string(), true));
        } else {
            return Err(message_with_path("❌ Error: Backup path not found: ", b));
        }
    }
    if let Some(c) = config {
        if config_exists {
            return Ok((c.to_string(), false));
        } else {
            return Err(message_with_path("❌ Error: Configuration file not found: ", c));
        }
    }
    let suffix = chars_of(".toml");
    let mut found: Vec<String> = Vec::new();
    let mut i: usize = 0;
    while i < entries.len()
        invariant
            i <= entries@.len(),
            suffix@ == ".toml"@,
            found@.len() == profile_files(entries@.take(i as int)).len(),
            forall|k: int|
                0 <= k < found@.len() ==> #[trigger] found@[k]@ == profile_files(
                    entries@.take(i as int),
                )[k],
        decreases entries@.len() - i,
    {
        let e = &entries[i];
        let keep = e.is_file && match &e.file_name {
            Some(n) => ends_with_chars(&chars_of(n.as_str()), &suffix),
            None => false,
        };
        proof {
            assert(entries@.take(i + 1).drop_last() =~= entries@.take(i as int));
            assert(entries@.take(i + 1).last() == entries@[i as int]);
        }
        if keep {
            found.push(e.path.clone());
        }
        i = i + 1;
    }
    proof {
        assert(entries@.take(entries@.len() as int) =~= entries@);
    }
    if found.len() == 1 {
        Ok((found[0].clone(), false))
    } else if found.len() > 1 {
        Err(
            "❌ Error: Multiple .toml files found in current directory. Please specify --config".to_string(),
        )
    } else {
        Err(
            "❌ Error: Either --config or --backup is required, or no config file found in current directory\n\nExamples:\n• rsb backup my-backup.toml\n• rsb backup --backup /path/to/backup\n• rsb backup --config my-backup.toml".to_string(),
        )
    }
}

/// Names what parsing `content` as a TOML table gives under `key`: `Err`
/// with the parser's message when `content` is not a TOML table; else
/// `None` when there is no such key, `Some(None)` when its value is not a
/// string, and the string otherwise.
pub uninterp spec fn toml_value_text(content: Seq<char>, key: Seq<char>) -> Result<
    Option<Option<Seq<char>>>,
    Seq<char>,
>;

/// Parses `content` with `toml::from_str` into a `toml::Table` and reads the
/// string at `key` with `Table::get`; the result is the named value
/// `toml_value_text(content, key)`.
#[verifier::external_body]
pub(crate) fn toml_text_field(content: &str, key: &str) -> (r: Result<Option<Option<String>>, String>)
    ensures
        toml_value_text(content@, key@) == match r {
            Ok(None) => Ok(None),
            Ok(Some(t)) => Ok(Some(opt_string_view(t))),
            Err(m) => Err::<Option<Option<Seq<char>>>, Seq<char>>(m@),
        },
{
    match toml::from_str::<toml::Table>(content) {
        Ok(table) => match table.get(key) {
            Some(toml::Value::String(s)) => Ok(Some(Some(s.clone()))),
            Some(_) => Ok(Some(None)),
            None => Ok(None),
        },
        Err(e) => Err(e.to_string()),
    }
}

/// Why a profile names no destination.
pub enum ConfigReadError {
    /// The profile is not valid TOML; the parser's message.
    Unparsable(String),
    /// Neither `destination_path` nor `destination` holds a path.
    NoDestination,
}

/// The destination folder a profile names: its `destination_path`, or when
/// that key is absent its `destination`; the value must be a string.
pub open spec fn config_destination(content: Seq<char>) -> Result<Seq<char>, Option<Seq<char>>> {
    match toml_value_text(content, "destination_path"@) {
        Err(m) => Err(Some(m)),
        Ok(Some(Some(d))) => Ok(d),
        Ok(Some(None)) => Err(None),
        Ok(None) => match toml_value_text(content, "destination"@) {
            Ok(Some(Some(d))) => Ok(d),
            _ => Err(None),
        },
    }
}

/// The destination folder named in the profile text `content`.
pub fn destination_from_config(content: &str) -> (r: Result<String, ConfigReadError>)
    ensures
        match config_destination(content@) {
            Ok(d) => r matches Ok(p) && p@ == d,
            Err(Some(m)) => r matches Err(ConfigReadError::Unparsable(e)) && e@ == m,
            Err(None) => r matches Err(ConfigReadError::NoDestination),
        },
{
    match toml_text_field(content, "destination_path") {
        Err(m) => Err(ConfigReadError::Unparsable(m)),
        Ok(Some(Some(d))) => Ok(d),
        Ok(Some(None)) => Err(ConfigReadError::NoDestination),
        Ok(None) => match toml_text_field(content, "destination") {
            Ok(Some(Some(d))) => Ok(d),
            _ => Err(ConfigReadError::NoDestination),
        },
    }
}

/// The message of a profile that names no destination; `with_detail` adds
/// the parser's message to that of an invalid profile.
pub fn config_read_message(e: &ConfigReadError, with_detail: bool) -> (r: String)
    ensures
        r@ == match e {
            ConfigReadError::Unparsable(m) => if with_detail {
                "Failed to parse config.toml: "@ + m@
            } else {
                "Failed to parse config.toml"@
            },
            ConfigReadError::NoDestination => "'destination_path' not found in config.toml"@,
        },
{
    match e {
        ConfigReadError::Unparsable(m) => if with_detail {
            message_with_path("Failed to parse config.toml: ", m.as_str())
        } else {
            "Failed to parse config.toml".to_string()
        },
        ConfigReadError::NoDestination => "'destination_path' not found in config.toml".to_string(),
    }
}

/// Names what `std::path::Path::extension` gives for `path`, as text.
pub uninterp spec fn extension_text(path: Seq<char>) -> Option<Seq<char>>;

/// Calls `Path::extension` on `path`; the result is the named value
/// `extension_text(path)`.
#[verifier::external_body]
pub(crate) fn path_extension(path: &str) -> (r: Option<String>)
    ensures
        opt_string_view(r) == extension_text(path@),
{
    std::path::Path::new(path).extension().map(|e| e.to_string_lossy().into_owned())
}

/// Where the snapshot commands look for the backup.
pub enum BackupLocation {
    /// The backup folder given with `--backup`.
    Folder(String),
    /// The profile whose destination is the backup folder.
    Profile(String),
    /// Nothing names a backup.
    NotFound,
}

/// Where the snapshot commands find the backup: the folder of `--backup`,
/// else the profile of `--config`, else the first entry of the current
/// directory (in the order listed) whose extension is `toml`.
pub fn backup_location(config: Option<&str>, backup: Option<&str>, entries: &Vec<String>) -> (r:
    BackupLocation)
    ensures
        match backup {
            Some(b) => r matches BackupLocation::Folder(f) && f@ == b@,
            None => match config {
                Some(c) => r matches BackupLocation::Profile(p) && p@ == c@,
                None => match r {
                    BackupLocation::Profile(p) => exists|i: int|
                        0 <= i < entries@.len() && p == entries@[i] && extension_text(
                            entries@[i]@,
                        ) == Some("toml"@) && forall|j: int|
                            0 <= j < i ==> extension_text(#[trigger] entries@[j]@) != Some(
                                "toml"@,
                            ),
                    BackupLocation::NotFound => forall|i: int|
                        0 <= i < entries@.len() ==> extension_text(#[trigger] entries@[i]@)
                            != Some("toml"@),
                    BackupLocation::Folder(_) => false,
                },
            },
        },
{
    if let Some(b) = backup {
        return BackupLocation::Folder(b.to_string());
    }
    if let Some(c) = config {
        return BackupLocation::Profile(c.to_string());
    }
    let toml = chars_of("toml");
    let mut i: usize = 0;
    while i < entries.len()
        invariant
            i <= entries@.len(),
            toml@ == "toml"@,
            backup is None,
            config is None,
            forall|j: int|
                0 <= j < i ==> extension_text(#[trigger] entries@[j]@) != Some("toml"@),
        decreases entries@.len() - i,
    {
        let ext = path_extension(entries[i].as_str());
        let is_toml = match &ext {
            Some(e) => crate::text::chars_equal(&chars_of(e.as_str()), &toml),
            None => false,
        };
        if is_toml {
            return BackupLocation::Profile(entries[i].clone());
        }
        i = i + 1;
    }
    BackupLocation::NotFound
}

} // verus!
