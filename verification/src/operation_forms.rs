//! What the backup, verify, restore and prune forms hand to the engine: the
//! form's texts are checked and turned into the profile settings of the run.

use vstd::prelude::*;
use crate::numeric::{
    chars_of, decimal, lemma_decimal_round_trip, parse_unsigned, parse_u8, parse_usize,
};
use crate::profile_loader::{joined_lines, number_or_empty};
use crate::text::{push_all, replace_all, replace_chars, string_from_chars};
use crate::operations_helpers::opt_view;
use crate::profile_loader::{Config, S3Config};
use crate::text_lines::{
    kept_lines, non_empty, non_empty_text, pattern_lines, pattern_list, split_lines, texts, trimmed,
};

verus! {

/// Size of the channel through which a run reports manifest updates.
pub const CHANNEL_BUFFER_SIZE: usize = 8192;

/// The S3 fields of a form, as typed.
pub struct S3Form {
    pub bucket: String,
    pub region: String,
    pub endpoint: String,
    pub access_key: String,
    pub secret_key: String,
}

/// Why a form cannot start its operation.
#[derive(PartialEq, Eq, Structural, Debug, Clone, Copy)]
pub enum FormError {
    /// Backup and prune: a source (backup) or a destination (or S3 bucket) is missing.
    MissingPaths,
    /// Verify and restore: neither a backup folder nor an S3 bucket is given.
    MissingBackupLocation,
    /// Restore: no folder to restore into.
    MissingRestoreTarget,
}

/// A number field as `str::parse::<u8>().ok()` reads it.
pub open spec fn parsed_u8(s: Seq<char>) -> Option<u8> {
    match parse_unsigned(s, 255) {
        Some(v) => Some(v as u8),
        None => None,
    }
}

/// The S3 settings that a form's S3 fields give: each text field that is
/// filled in, and an `s3` section only when a bucket is given.
pub open spec fn s3_from_form(
    form: S3Form,
    bucket: Option<String>,
    region: Option<String>,
    endpoint: Option<String>,
    section: Option<S3Config>,
) -> bool {
    &&& opt_view(bucket) == non_empty_text(form.bucket@)
    &&& opt_view(region) == non_empty_text(form.region@)
    &&& opt_view(endpoint) == non_empty_text(form.endpoint@)
    &&& match section {
        Some(s) => {
            &&& form.bucket@.len() > 0
            &&& opt_view(s.bucket) == non_empty_text(form.bucket@)
            &&& opt_view(s.region) == non_empty_text(form.region@)
            &&& opt_view(s.endpoint) == non_empty_text(form.endpoint@)
            &&& opt_view(s.access_key) == non_empty_text(form.access_key@)
            &&& opt_view(s.secret_key) == non_empty_text(form.secret_key@)
        },
        None => form.bucket@.len() == 0,
    }
}

/// The S3 settings of a run whose form holds `form`.
pub struct S3Choice {
    pub bucket: Option<String>,
    pub region: Option<String>,
    pub endpoint: Option<String>,
    pub section: Option<S3Config>,
}

fn s3_choice(form: &S3Form) -> (r: S3Choice)
    ensures
        s3_from_form(*form, r.bucket, r.region, r.endpoint, r.section),
{
    let bucket = non_empty(form.bucket.as_str());
    let region = non_empty(form.region.as_str());
    let endpoint = non_empty(form.endpoint.as_str());
    let section = if bucket.is_some() {
        Some(
            S3Config {
                bucket: non_empty(form.bucket.as_str()),
                region: non_empty(form.region.as_str()),
                endpoint: non_empty(form.endpoint.as_str()),
                access_key: non_empty(form.access_key.as_str()),
                secret_key: non_empty(form.secret_key.as_str()),
            },
        )
    } else {
        None
    };
    S3Choice { bucket, region, endpoint, section }
}

fn is_empty_text(s: &String) -> (r: bool)
    ensures
        r == (s@.len() == 0),
{
    s.as_str().unicode_len() == 0
}

/// The fields of the backup form.
pub struct BackupForm {
    pub source_path: String,
    pub destination_path: String,
    pub key: String,
    pub exclude_patterns: String,
    pub encrypt_patterns: String,
    pub backup_mode: String,
    pub pause_on_low_battery: String,
    pub pause_on_high_cpu: String,
    pub compression_level: String,
    pub s3: S3Form,
}

/// A backup as the form asks for it: the settings of the run and the
/// encryption key, when one is typed.
pub struct BackupRequest {
    pub config: Config,
    pub key: Option<String>,
}

/// The backup form can start a run: a source is given, and a destination
/// folder or an S3 bucket.
pub open spec fn backup_form_complete(form: BackupForm) -> bool {
    form.source_path@.len() > 0 && (form.destination_path@.len() > 0 || form.s3.bucket@.len() > 0)
}

/// `c` holds the settings that the backup form `form` gives.
pub open spec fn backup_settings(form: BackupForm, c: Config) -> bool {
    &&& c.source_path@ == form.source_path@
    &&& c.destination_path@ == form.destination_path@
    &&& texts(c.exclude_patterns@) == pattern_list(form.exclude_patterns@)
    &&& c.encryption_key is None
    &&& c.encrypt_patterns is Some
    &&& texts(c.encrypt_patterns->0@) == pattern_list(form.encrypt_patterns@)
    &&& c.backup_mode@ == form.backup_mode@
    &&& c.pause_on_low_battery == parsed_u8(form.pause_on_low_battery@)
    &&& c.pause_on_high_cpu == parsed_u8(form.pause_on_high_cpu@)
    &&& c.compression_level == parsed_u8(form.compression_level@)
    &&& s3_from_form(form.s3, c.s3_bucket, c.s3_region, c.s3_endpoint, c.s3)
}

/// The run that the backup form starts: the pattern lists are read one
/// item per line, number fields that do not parse are left unset, empty
/// fields are absent, and the key is handed over apart from the settings.
/// Without a source, or without both a destination and an S3 bucket, the
/// run is refused.
pub fn backup_request(form: &BackupForm) -> (r: Result<BackupRequest, FormError>)
    ensures
        match r {
            Ok(req) => {
                &&& backup_form_complete(*form)
                &&& backup_settings(*form, req.config)
                &&& opt_view(req.key) == non_empty_text(form.key@)
            },
            Err(e) => !backup_form_complete(*form) && e == FormError::MissingPaths,
        },
{
    if is_empty_text(&form.source_path) || (is_empty_text(&form.destination_path)
        && is_empty_text(&form.s3.bucket)) {
        return Err(FormError::MissingPaths);
    }
    let s3 = s3_choice(&form.s3);
    let config = Config {
        source_path: form.source_path.clone(),
        destination_path: form.destination_path.clone(),
        exclude_patterns: pattern_lines(form.exclude_patterns.as_str()),
        encryption_key: None,
        backup_mode: form.backup_mode.clone(),
        s3_bucket: s3.bucket,
        s3_region: s3.region,
        s3_endpoint: s3.endpoint,
        s3: s3.section,
        encrypt_patterns: Some(pattern_lines(form.encrypt_patterns.as_str())),
        pause_on_low_battery: parse_u8(form.pause_on_low_battery.as_str()),
        pause_on_high_cpu: parse_u8(form.pause_on_high_cpu.as_str()),
        compression_level: parse_u8(form.compression_level.as_str()),
    };
    Ok(BackupRequest { config, key: non_empty(form.key.as_str()) })
}

/// `c` holds the settings with which the verify form checks the backup at
/// `backup_path`: only the backup's location, key and S3 settings come from
/// the form, the rest is fixed.
pub open spec fn verify_settings(backup_path: Seq<char>, key: Seq<char>, s3: S3Form, c: Config) -> bool {
    &&& c.source_path@ == "dummy"@
    &&& c.destination_path@ == backup_path
    &&& c.exclude_patterns@.len() == 0
    &&& opt_view(c.encryption_key) == non_empty_text(key)
    &&& c.encrypt_patterns is None
    &&& c.backup_mode@ == "incremental"@
    &&& c.pause_on_low_battery is None
    &&& c.pause_on_high_cpu is None
    &&& c.compression_level == Some(3u8)
    &&& s3_from_form(s3, c.s3_bucket, c.s3_region, c.s3_endpoint, c.s3)
}

/// The settings with which the verify form checks a backup. Without a
/// backup folder and without an S3 bucket it is refused.
pub fn verify_config(backup_path: &str, key: &str, s3: &S3Form) -> (r: Result<Config, FormError>)
    ensures
        match r {
            Ok(c) => (backup_path@.len() > 0 || s3.bucket@.len() > 0) && verify_settings(
                backup_path@,
                key@,
                *s3,
                c,
            ),
            Err(e) => backup_path@.len() == 0 && s3.bucket@.len() == 0 && e
                == FormError::MissingBackupLocation,
        },
{
    if backup_path.unicode_len() == 0 && is_empty_text(&s3.bucket) {
        return Err(FormError::MissingBackupLocation);
    }
    let choice = s3_choice(s3);
    Ok(
        Config {
            source_path: "dummy".to_string(),
            destination_path: backup_path.to_string(),
            exclude_patterns: Vec::new(),
            encryption_key: non_empty(key),
            backup_mode: "incremental".to_string(),
            s3_bucket: choice.bucket,
            s3_region: choice.region,
            s3_endpoint: choice.endpoint,
            s3: choice.section,
            encrypt_patterns: None,
            pause_on_low_battery: None,
            pause_on_high_cpu: None,
            compression_level: Some(3),
        },
    )
}

/// The fields of the restore form.
pub struct RestoreForm {
    pub backup_path: String,
    pub restore_to: String,
    pub snapshot_id: String,
    pub key: String,
    pub exclude_patterns: String,
    pub backup_mode: String,
    pub s3: S3Form,
}

/// A restore as the form asks for it.
pub struct RestoreRequest {
    pub config: Config,
    /// The snapshot to restore; the latest when absent.
    pub snapshot: Option<String>,
    pub key: Option<String>,
    pub target: String,
}

/// `c` holds the settings with which the restore form reads its backup.
pub open spec fn restore_settings(form: RestoreForm, c: Config) -> bool {
    &&& c.source_path@ == "dummy"@
    &&& c.destination_path@ == form.backup_path@
    &&& texts(c.exclude_patterns@) == pattern_list(form.exclude_patterns@)
    &&& c.encryption_key is None
    &&& c.encrypt_patterns is None
    &&& c.backup_mode@ == form.backup_mode@
    &&& c.pause_on_low_battery is None
    &&& c.pause_on_high_cpu is None
    &&& c.compression_level == Some(3u8)
    &&& s3_from_form(form.s3, c.s3_bucket, c.s3_region, c.s3_endpoint, c.s3)
}

/// The restore that the form starts. A missing target folder is reported
/// first; then a missing backup folder when no S3 bucket is given either.
pub fn restore_request(form: &RestoreForm) -> (r: Result<RestoreRequest, FormError>)
    ensures
        match r {
            Ok(req) => {
                &&& form.restore_to@.len() > 0
                &&& (form.backup_path@.len() > 0 || form.s3.bucket@.len() > 0)
                &&& restore_settings(*form, req.config)
                &&& opt_view(req.snapshot) == non_empty_text(form.snapshot_id@)
                &&& opt_view(req.key) == non_empty_text(form.key@)
                &&& req.target@ == form.restore_to@
            },
            Err(e) => if form.restore_to@.len() == 0 {
                e == FormError::MissingRestoreTarget
            } else {
                form.backup_path@.len() == 0 && form.s3.bucket@.len() == 0 && e
                    == FormError::MissingBackupLocation
            },
        },
{
    if is_empty_text(&form.restore_to) {
        return Err(FormError::MissingRestoreTarget);
    }
    if is_empty_text(&form.backup_path) && is_empty_text(&form.s3.bucket) {
        return Err(FormError::MissingBackupLocation);
    }
    let choice = s3_choice(&form.s3);
    let config = Config {
        source_path: "dummy".to_string(),
        destination_path: form.backup_path.clone(),
        exclude_patterns: pattern_lines(form.exclude_patterns.as_str()),
        encryption_key: None,
        backup_mode: form.backup_mode.clone(),
        s3_bucket: choice.bucket,
        s3_region: choice.region,
        s3_endpoint: choice.endpoint,
        s3: choice.section,
        encrypt_patterns: None,
        pause_on_low_battery: None,
        pause_on_high_cpu: None,
        compression_level: Some(3),
    };
    Ok(
        RestoreRequest {
            config,
            snapshot: non_empty(form.snapshot_id.as_str()),
            key: non_empty(form.key.as_str()),
            target: form.restore_to.clone(),
        },
    )
}

/// How many days of snapshots a prune keeps when the field does not hold a number.
pub const DEFAULT_RETENTION_DAYS: usize = 30;

/// A prune as the form asks for it.
pub struct PruneRequest {
    pub config: Config,
    pub retention_days: usize,
}

/// The retention of the prune form: the number typed, else 30 days.
pub open spec fn retention_days_of(text: Seq<char>) -> nat {
    match parse_unsigned(text, usize::MAX as nat) {
        Some(d) => d,
        None => DEFAULT_RETENTION_DAYS as nat,
    }
}

/// `c` holds the settings with which the prune form cleans the repository.
pub open spec fn prune_settings(repo_path: Seq<char>, key: Seq<char>, s3: S3Form, c: Config) -> bool {
    &&& c.source_path@.len() == 0
    &&& c.destination_path@ == repo_path
    &&& c.exclude_patterns@.len() == 0
    &&& opt_view(c.encryption_key) == non_empty_text(key)
    &&& c.encrypt_patterns is None
    &&& c.backup_mode@ == "incremental"@
    &&& c.pause_on_low_battery is None
    &&& c.pause_on_high_cpu is None
    &&& c.compression_level is None
    &&& s3_from_form(s3, c.s3_bucket, c.s3_region, c.s3_endpoint, c.s3)
}

/// The prune form keeps the number of days typed, whatever its size, as
/// long as it fits a `usize`; only a text that is not such a number falls
/// back to 30 days.
pub proof fn law_typed_retention_is_kept(d: nat, text: Seq<char>)
    requires
        d <= usize::MAX,
    ensures
        retention_days_of(decimal(d)) == d,
        parse_unsigned(text, usize::MAX as nat) is None ==> retention_days_of(text) == 30,
        parse_unsigned(text, usize::MAX as nat) matches Some(n) ==> retention_days_of(text) == n,
{
    lemma_decimal_round_trip(d, usize::MAX as nat);
}

/// The prune that the form starts. Without a repository folder and without
/// an S3 bucket it is refused.
pub fn prune_request(repo_path: &str, retention_days: &str, key: &str, s3: &S3Form) -> (r: Result<
    PruneRequest,
    FormError,
>)
    ensures
        match r {
            Ok(req) => {
                &&& (repo_path@.len() > 0 || s3.bucket@.len() > 0)
                &&& prune_settings(repo_path@, key@, *s3, req.config)
                &&& req.retention_days == retention_days_of(retention_days@)
            },
            Err(e) => repo_path@.len() == 0 && s3.bucket@.len() == 0 && e == FormError::MissingPaths,
        },
{
    if repo_path.unicode_len() == 0 && is_empty_text(&s3.bucket) {
        return Err(FormError::MissingPaths);
    }
    let days = match parse_usize(retention_days) {
        Some(d) => d,
        None => DEFAULT_RETENTION_DAYS,
    };
    let choice = s3_choice(s3);
    let config = Config {
        source_path: String::new(),
        destination_path: repo_path.to_string(),
        exclude_patterns: Vec::new(),
        encryption_key: non_empty(key),
        backup_mode: "incremental".to_string(),
        s3_bucket: choice.bucket,
        s3_region: choice.region,
        s3_endpoint: choice.endpoint,
        s3: choice.section,
        encrypt_patterns: None,
        pause_on_low_battery: None,
        pause_on_high_cpu: None,
        compression_level: None,
    };
    Ok(PruneRequest { config, retention_days: days })
}

/// The fields of the form that creates a profile.
pub struct NewProfileForm {
    pub name: String,
    pub source_path: String,
    pub destination_path: String,
    pub exclude_patterns: String,
    pub use_s3: bool,
    pub s3: S3Form,
}

/// Why a profile cannot be created.
#[derive(PartialEq, Eq, Structural, Debug, Clone, Copy)]
pub enum NewProfileError {
    NameRequired,
    SourceRequired,
    DestinationRequired,
}

/// A profile ready to be written.
pub struct NewProfile {
    /// The file that holds it: the profile's name with `.toml`.
    pub file_name: String,
    pub config: Config,
    /// The S3 access and secret keys go to the encrypted credentials store
    /// (never into the profile): only with S3 on and both keys typed.
    pub save_credentials: bool,
}

/// `c` holds the settings of a newly created profile: the form's folders and
/// pattern list, S3 bucket, region and endpoint in the `s3` section when S3 is
/// on (never the keys), and the defaults of a new profile for the rest.
pub open spec fn new_profile_settings(form: NewProfileForm, c: Config) -> bool {
    &&& c.source_path@ == form.source_path@
    &&& c.destination_path@ == form.destination_path@
    &&& texts(c.exclude_patterns@) == pattern_list(form.exclude_patterns@)
    &&& c.encryption_key is None
    &&& c.backup_mode@ == "incremental"@
    &&& c.s3_bucket is None
    &&& c.s3_region is None
    &&& c.s3_endpoint is None
    &&& c.encrypt_patterns is None
    &&& c.pause_on_low_battery == Some(20u8)
    &&& c.pause_on_high_cpu == Some(20u8)
    &&& c.compression_level == Some(3u8)
    &&& match c.s3 {
        Some(s) => {
            &&& form.use_s3
            &&& opt_view(s.bucket) == non_empty_text(form.s3.bucket@)
            &&& opt_view(s.region) == non_empty_text(form.s3.region@)
            &&& opt_view(s.endpoint) == non_empty_text(form.s3.endpoint@)
            &&& s.access_key is None
            &&& s.secret_key is None
        },
        None => !form.use_s3,
    }
}

/// The profile that the form creates. The name is checked first, then the
/// source folder, then the destination folder.
pub fn new_profile(form: &NewProfileForm) -> (r: Result<NewProfile, NewProfileError>)
    ensures
        match r {
            Ok(p) => {
                &&& form.name@.len() > 0
                &&& form.source_path@.len() > 0
                &&& form.destination_path@.len() > 0
                &&& p.file_name@ == form.name@ + ".toml"@
                &&& new_profile_settings(*form, p.config)
                &&& p.save_credentials == (form.use_s3 && form.s3.access_key@.len() > 0
                    && form.s3.secret_key@.len() > 0)
            },
            Err(e) => if form.name@.len() == 0 {
                e == NewProfileError::NameRequired
            } else if form.source_path@.len() == 0 {
                e == NewProfileError::SourceRequired
            } else {
                form.destination_path@.len() == 0 && e == NewProfileError::DestinationRequired
            },
        },
{
    if is_empty_text(&form.name) {
        return Err(NewProfileError::NameRequired);
    }
    if is_empty_text(&form.source_path) {
        return Err(NewProfileError::SourceRequired);
    }
    if is_empty_text(&form.destination_path) {
        return Err(NewProfileError::DestinationRequired);
    }
    let s3 = if form.use_s3 {
        Some(
            S3Config {
                bucket: non_empty(form.s3.bucket.as_str()),
                region: non_empty(form.s3.region.as_str()),
                endpoint: non_empty(form.s3.endpoint.as_str()),
                access_key: None,
                secret_key: None,
            },
        )
    } else {
        None
    };
    let mut name = chars_of(form.name.as_str());
    push_all(&mut name, &chars_of(".toml"));
    let config = Config {
        source_path: form.source_path.clone(),
        destination_path: form.destination_path.clone(),
        exclude_patterns: pattern_lines(form.exclude_patterns.as_str()),
        encryption_key: None,
        backup_mode: "incremental".to_string(),
        s3_bucket: None,
        s3_region: None,
        s3_endpoint: None,
        s3,
        encrypt_patterns: None,
        pause_on_low_battery: Some(20),
        pause_on_high_cpu: Some(20),
        compression_level: Some(3),
    };
    let save_credentials = form.use_s3 && !is_empty_text(&form.s3.access_key) && !is_empty_text(
        &form.s3.secret_key,
    );
    Ok(NewProfile { file_name: string_from_chars(name), config, save_credentials })
}

/// A message template with its `{0}` placeholders filled with `value`.
pub fn fill_placeholder(template: &str, value: &str) -> (r: String)
    ensures
        r@ == replace_all(template@, "{0}"@, value@),
{
    let t = chars_of(template);
    let p = chars_of("{0}");
    let v = chars_of(value);
    proof {
        reveal_strlit("{0}");
    }
    string_from_chars(replace_chars(&t, &p, &v))
}

/// `item` is a list item that reads back as itself: not empty, no
/// surrounding whitespace, no newline.
pub open spec fn plain_item(item: Seq<char>) -> bool {
    &&& item.len() > 0
    &&& trimmed(item) == item
    &&& forall|k: int| 0 <= k < item.len() ==> item[k] != '\n'
}

proof fn lemma_split_lines_append(a: Seq<char>, b: Seq<char>)
    requires
        forall|k: int| 0 <= k < b.len() ==> b[k] != '\n',
    ensures
        split_lines(a + b) == split_lines(a).update(
            split_lines(a).len() - 1,
            split_lines(a).last() + b,
        ),
    decreases b.len(),
{
    lemma_split_lines_len(a);
    if b.len() == 0 {
        assert(a + b =~= a);
        assert(split_lines(a).last() + b =~= split_lines(a).last());
        assert(split_lines(a).update(split_lines(a).len() - 1, split_lines(a).last())
            =~= split_lines(a));
    } else {
        let b0 = b.drop_last();
        lemma_split_lines_append(a, b0);
        assert((a + b).drop_last() =~= a + b0);
        assert((a + b).last() == b.last());
        lemma_split_lines_len(a + b0);
        let prev = split_lines(a + b0);
        assert(prev.len() == split_lines(a).len());
        assert(prev.last() == split_lines(a).last() + b0);
        assert(b[b.len() - 1] != '\n');
        assert(split_lines(a + b) == prev.update(prev.len() - 1, prev.last().push(b.last())));
        assert(split_lines(a).last() + b0 + seq![b.last()] =~= split_lines(a).last() + b);
        assert(prev.last().push(b.last()) =~= split_lines(a).last() + b);
        assert(split_lines(a + b) =~= split_lines(a).update(
            split_lines(a).len() - 1,
            split_lines(a).last() + b,
        ));
    }
}

proof fn lemma_split_lines_len(s: Seq<char>)
    ensures
        split_lines(s).len() >= 1,
    decreases s.len(),
{
    if s.len() > 0 {
        lemma_split_lines_len(s.drop_last());
    }
}

/// Writing a list one item per line and reading it back as the forms do
/// gives the same list, when every item reads back as itself.
pub proof fn law_pattern_lines_round_trip(items: Seq<Seq<char>>)
    requires
        forall|i: int| 0 <= i < items.len() ==> plain_item(#[trigger] items[i]),
    ensures
        pattern_list(joined_lines(items)) == items,
    decreases items.len(),
{
    if items.len() == 0 {
        assert(joined_lines(items) =~= Seq::<char>::empty());
        assert(split_lines(Seq::<char>::empty()) =~= seq![Seq::<char>::empty()]);
        assert(seq![Seq::<char>::empty()].drop_last() =~= Seq::<Seq<char>>::empty());
        assert(trimmed(Seq::<char>::empty()) =~= Seq::<char>::empty());
        let l = seq![Seq::<char>::empty()];
        assert(l.last() == Seq::<char>::empty());
        assert(kept_lines(l) == kept_lines(l.drop_last()));
        assert(items =~= Seq::<Seq<char>>::empty());
        assert(pattern_list(joined_lines(items)) == items);
    } else if items.len() == 1 {
        let b = items[0];
        assert(plain_item(items[0]));
        lemma_split_lines_append(Seq::<char>::empty(), b);
        assert(Seq::<char>::empty() + b =~= b);
        assert(split_lines(Seq::<char>::empty()) =~= seq![Seq::<char>::empty()]);
        assert(Seq::<char>::empty() + b =~= b);
        let l = split_lines(b);
        assert(l =~= seq![b]);
        assert(l.drop_last() =~= Seq::<Seq<char>>::empty());
        assert(l.last() == b);
        assert(kept_lines(l.drop_last()) == Seq::<Seq<char>>::empty());
        assert(kept_lines(l) == Seq::<Seq<char>>::empty().push(b));
        assert(kept_lines(l) =~= seq![b]);
        assert(items =~= seq![b]);
        assert(pattern_list(joined_lines(items)) == items);
    } else {
        let front = items.drop_last();
        let b = items.last();
        assert(plain_item(items[items.len() - 1]));
        assert forall|i: int| 0 <= i < front.len() implies plain_item(#[trigger] front[i]) by {
            assert(front[i] == items[i]);
        }
        law_pattern_lines_round_trip(front);
        reveal_strlit("\n");
        let a = joined_lines(front) + "\n"@;
        assert(joined_lines(items) == a + b);
        lemma_split_lines_append(a, b);
        lemma_split_lines_len(joined_lines(front));
        assert(a.drop_last() =~= joined_lines(front));
        assert(a.last() == '\n');
        assert(split_lines(a) == split_lines(joined_lines(front)).push(seq![]));
        assert(Seq::<char>::empty() + b =~= b);
        let l = split_lines(a + b);
        assert(l =~= split_lines(joined_lines(front)).push(b));
        assert(l.drop_last() =~= split_lines(joined_lines(front)));
        assert(kept_lines(l) == kept_lines(split_lines(joined_lines(front))).push(b));
        assert(items =~= front.push(b));
        assert(pattern_list(joined_lines(items)) == items);
    }
}

/// A number shown in a form field and read back as the forms do is the same
/// number, and an empty field reads back as no number.
pub proof fn law_number_field_round_trip(n: Option<u8>)
    ensures
        parsed_u8(number_or_empty(n)) == n,
{
    match n {
        Some(v) => {
            lemma_decimal_round_trip(v as nat, 255);
        },
        None => {},
    }
}

/// Every item of the list reads back as itself.
pub open spec fn plain_list(items: Seq<Seq<char>>) -> bool {
    forall|i: int| 0 <= i < items.len() ==> plain_item(#[trigger] items[i])
}

/// A profile loaded into the backup form (as `ProfileData::from` shows it)
/// and run from there is backed up with the profile's own folders, mode,
/// pattern lists and numbers, when its patterns read back as themselves.
pub proof fn law_loaded_profile_runs_as_saved(cfg: Config, form: BackupForm, c: Config)
    requires
        plain_list(texts(cfg.exclude_patterns@)),
        cfg.encrypt_patterns matches Some(v) ==> plain_list(texts(v@)),
        form.source_path@ == cfg.source_path@,
        form.destination_path@ == cfg.destination_path@,
        form.backup_mode@ == cfg.backup_mode@,
        form.exclude_patterns@ == joined_lines(texts(cfg.exclude_patterns@)),
        form.encrypt_patterns@ == match cfg.encrypt_patterns {
            Some(v) => joined_lines(texts(v@)),
            None => seq![],
        },
        form.pause_on_low_battery@ == number_or_empty(cfg.pause_on_low_battery),
        form.pause_on_high_cpu@ == number_or_empty(cfg.pause_on_high_cpu),
        form.compression_level@ == number_or_empty(cfg.compression_level),
        backup_settings(form, c),
    ensures
        c.source_path@ == cfg.source_path@,
        c.destination_path@ == cfg.destination_path@,
        c.backup_mode@ == cfg.backup_mode@,
        texts(c.exclude_patterns@) == texts(cfg.exclude_patterns@),
        texts(c.encrypt_patterns->0@) == match cfg.encrypt_patterns {
            Some(v) => texts(v@),
            None => seq![],
        },
        c.pause_on_low_battery == cfg.pause_on_low_battery,
        c.pause_on_high_cpu == cfg.pause_on_high_cpu,
        c.compression_level == cfg.compression_level,
{
    law_pattern_lines_round_trip(texts(cfg.exclude_patterns@));
    match cfg.encrypt_patterns {
        Some(v) => law_pattern_lines_round_trip(texts(v@)),
        None => {
            law_pattern_lines_round_trip(Seq::<Seq<char>>::empty());
            assert(joined_lines(Seq::<Seq<char>>::empty()) == Seq::<char>::empty());
        },
    }
    law_number_field_round_trip(cfg.pause_on_low_battery);
    law_number_field_round_trip(cfg.pause_on_high_cpu);
    law_number_field_round_trip(cfg.compression_level);
}

} // verus!
