//! History records of finished operations (backup, restore, verify, prune,
//! schedule). Each function builds the record that the history stores.

use vstd::prelude::*;
use crate::numeric::chars_of;
use crate::text::{push_all, string_from_chars};

verus! {

/// One entry of the operations history.
pub struct OperationRecord {
    pub operation_type: String,
    pub status: String,
    pub files_processed: usize,
    pub files_skipped: usize,
    pub files_with_errors: usize,
    pub duration_secs: u64,
    pub size_info: String,
    pub source: Option<String>,
    pub destination: Option<String>,
}

/// The characters of an optional string.
pub open spec fn opt_view(s: Option<String>) -> Option<Seq<char>> {
    match s {
        Some(t) => Some(t@),
        None => None,
    }
}

/// The record of a backup: no skipped files or errors counted, and the
/// backup's size as its size information.
pub fn record_backup_operation(
    status: String,
    files_processed: usize,
    duration_secs: u64,
    backup_size: String,
    source: String,
    destination: String,
) -> (r: OperationRecord)
    ensures
        r.operation_type@ == "Backup"@,
        r.status@ == status@,
        r.files_processed == files_processed,
        r.files_skipped == 0,
        r.files_with_errors == 0,
        r.duration_secs == duration_secs,
        r.size_info@ == backup_size@,
        opt_view(r.source) == Some(source@),
        opt_view(r.destination) == Some(destination@),
{
    OperationRecord {
        operation_type: "Backup".to_string(),
        status,
        files_processed,
        files_skipped: 0,
        files_with_errors: 0,
        duration_secs,
        size_info: backup_size,
        source: Some(source),
        destination: Some(destination),
    }
}

/// The record of a restore: no size information (`N/A`).
pub fn record_restore_operation(
    status: String,
    files_processed: usize,
    duration_secs: u64,
    source: String,
    destination: String,
) -> (r: OperationRecord)
    ensures
        r.operation_type@ == "Restore"@,
        r.status@ == status@,
        r.files_processed == files_processed,
        r.files_skipped == 0,
        r.files_with_errors == 0,
        r.duration_secs == duration_secs,
        r.size_info@ == "N/A"@,
        opt_view(r.source) == Some(source@),
        opt_view(r.destination) == Some(destination@),
{
    OperationRecord {
        operation_type: "Restore".to_string(),
        status,
        files_processed,
        files_skipped: 0,
        files_with_errors: 0,
        duration_secs,
        size_info: "N/A".to_string(),
        source: Some(source),
        destination: Some(destination),
    }
}

/// The record of a verification: the files with errors are counted, the
/// checked backup is the source and there is no destination.
pub fn record_verify_operation(
    status: String,
    files_processed: usize,
    files_with_errors: usize,
    duration_secs: u64,
    backup_path: String,
) -> (r: OperationRecord)
    ensures
        r.operation_type@ == "Verify"@,
        r.status@ == status@,
        r.files_processed == files_processed,
        r.files_skipped == 0,
        r.files_with_errors == files_with_errors,
        r.duration_secs == duration_secs,
        r.size_info@ == "N/A"@,
        opt_view(r.source) == Some(backup_path@),
        r.destination is None,
{
    OperationRecord {
        operation_type: "Verify".to_string(),
        status,
        files_processed,
        files_skipped: 0,
        files_with_errors,
        duration_secs,
        size_info: "N/A".to_string(),
        source: Some(backup_path),
        destination: None,
    }
}

/// The record of a prune: the removed files count as processed and the size
/// information tells the space freed (`Liberado: <space>`).
pub fn record_prune_operation(
    status: String,
    files_removed: usize,
    duration_secs: u64,
    space_freed: String,
    backup_path: String,
) -> (r: OperationRecord)
    ensures
        r.operation_type@ == "Prune"@,
        r.status@ == status@,
        r.files_processed == files_removed,
        r.files_skipped == 0,
        r.files_with_errors == 0,
        r.duration_secs == duration_secs,
        r.size_info@ == "Liberado: "@ + space_freed@,
        opt_view(r.source) == Some(backup_path@),
        r.destination is None,
{
    let mut info = chars_of("Liberado: ");
    push_all(&mut info, &chars_of(space_freed.as_str()));
    OperationRecord {
        operation_type: "Prune".to_string(),
        status,
        files_processed: files_removed,
        files_skipped: 0,
        files_with_errors: 0,
        duration_secs,
        size_info: string_from_chars(info),
        source: Some(backup_path),
        destination: None,
    }
}

/// Names what `format!("{:?}", error)` writes for an optional error text:
/// `None`, or `Some("...")` with the text escaped as `Debug` does.
pub uninterp spec fn debug_optional_text(error: Option<Seq<char>>) -> Seq<char>;

/// Printable ASCII other than the double quote and the backslash: the
/// characters that `Debug` writes in a string as they are.
pub open spec fn debug_plain(t: Seq<char>) -> bool {
    forall|i: int|
        0 <= i < t.len() ==> 0x20 <= (#[trigger] t[i] as u32) <= 0x7E && t[i] != '"' && t[i]
            != '\\'
}

/// Formats `error` with `Debug`; the result is the named value
/// `debug_optional_text`, which is `None` when there is no error, and
/// `Some("` + text + `")` for a text that needs no escaping.
#[verifier::external_body]
fn debug_optional(error: &Option<String>) -> (r: String)
    ensures
        r@ == debug_optional_text(opt_view(*error)),
        error.is_none() ==> r@ == "None"@,
        match *error {
            Some(t) => debug_plain(t@) ==> r@ == "Some(\""@ + t@ + "\")"@,
            None => true,
        },
{
    format!("{:?}", error)
}

/// The status text of a scheduling attempt.
pub open spec fn schedule_status(success: bool, error: Option<Seq<char>>) -> Seq<char> {
    if success {
        "success"@
    } else {
        "failed: "@ + debug_optional_text(error)
    }
}

/// The record of a scheduling attempt: one error counted when an error is
/// given, and no duration when none is known.
pub fn record_schedule_operation(
    success: bool,
    error: Option<String>,
    duration_secs: Option<u64>,
) -> (r: OperationRecord)
    ensures
        r.operation_type@ == "Schedule"@,
        r.status@ == schedule_status(success, opt_view(error)),
        !success && error is None ==> r.status@ == "failed: None"@,
        match error {
            Some(t) => !success && debug_plain(t@) ==> r.status@ == "failed: Some(\""@ + t@
                + "\")"@,
            None => true,
        },
        r.files_processed == 0,
        r.files_skipped == 0,
        r.files_with_errors == (if error is Some { 1usize } else { 0usize }),
        r.duration_secs == (match duration_secs {
            Some(d) => d,
            None => 0,
        }),
        r.size_info@ == "N/A"@,
        r.source is None,
        r.destination is None,
{
    let status = if success {
        "success".to_string()
    } else {
        let mut s = chars_of("failed: ");
        let d = debug_optional(&error);
        push_all(&mut s, &chars_of(d.as_str()));
        proof {
            reveal_strlit("failed: ");
            reveal_strlit("None");
            reveal_strlit("failed: None");
            reveal_strlit("Some(\"");
            reveal_strlit("failed: Some(\"");
            assert("failed: "@ + "None"@ =~= "failed: None"@);
            if let Some(t) = &error {
                assert("failed: "@ + ("Some(\""@ + t@ + "\")"@) =~= "failed: Some(\""@ + t@
                    + "\")"@);
            }
        }
        string_from_chars(s)
    };
    let duration = match duration_secs {
        Some(d) => d,
        None => 0,
    };
    OperationRecord {
        operation_type: "Schedule".to_string(),
        status,
        files_processed: 0,
        files_skipped: 0,
        files_with_errors: if error.is_some() {
            1
        } else {
            0
        },
        duration_secs: duration,
        size_info: "N/A".to_string(),
        source: None,
        destination: None,
    }
}

} // verus!
