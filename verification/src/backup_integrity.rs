//! The integrity check of a backup folder: from what was found in the folder
//! (its `snapshots/` and `data/` directories and the files in them), whether
//! the backup can be restored elsewhere, and what is wrong with it if not.

use vstd::prelude::*;
use crate::numeric::{chars_of, decimal, push_decimal};
use crate::text::{contains_chars, push_all, seq_contains, string_from_chars};
use crate::text_lines::texts;

verus! {

/// What the check found and concluded.
pub struct IntegrityStatus {
    pub backup_path: String,
    pub status: String,
    pub is_valid: bool,
    pub snapshots_count: usize,
    pub data_files_count: usize,
    pub encrypted_files_count: usize,
    pub issues: Vec<String>,
    pub suggestions: Vec<String>,
}

/// The number of `paths` whose text contains `enc`: those are counted as encrypted files.
pub open spec fn encrypted_count(paths: Seq<Seq<char>>) -> nat
    decreases paths.len(),
{
    if paths.len() == 0 {
        0
    } else {
        encrypted_count(paths.drop_last()) + if seq_contains(paths.last(), "enc"@) {
            1nat
        } else {
            0nat
        }
    }
}

proof fn lemma_encrypted_count_le(paths: Seq<Seq<char>>)
    ensures
        encrypted_count(paths) <= paths.len(),
    decreases paths.len(),
{
    if paths.len() > 0 {
        lemma_encrypted_count_le(paths.drop_last());
    }
}

/// The issues found, in the order the check reports them.
pub open spec fn integrity_issues(has_snapshots_dir: bool, has_data_dir: bool, snapshots: nat) -> Seq<
    Seq<char>,
> {
    (if has_snapshots_dir {
        seq![]
    } else {
        seq!["❌ 'snapshots/' directory not found"@]
    }) + (if has_data_dir {
        seq![]
    } else {
        seq!["❌ 'data/' directory not found"@]
    }) + (if snapshots == 0 {
        seq!["⚠️ No snapshots found"@]
    } else {
        seq![]
    })
}

/// The suggestion that goes with each issue, in the same order.
pub open spec fn integrity_suggestions(has_snapshots_dir: bool, has_data_dir: bool, snapshots: nat) -> Seq<
    Seq<char>,
> {
    (if has_snapshots_dir {
        seq![]
    } else {
        seq!["Verify that the entire folder was copied"@]
    }) + (if has_data_dir {
        seq![]
    } else {
        seq!["Re-copy the complete backup from the original computer"@]
    }) + (if snapshots == 0 {
        seq!["The backup may be corrupted or incomplete"@]
    } else {
        seq![]
    })
}

/// The report text of a valid backup.
pub open spec fn integrity_report(path: Seq<char>, snapshots: nat, normal: nat, encrypted: nat) -> Seq<
    char,
> {
    "✅ Integrity Report\n📁 "@ + path + "\nSnapshots: "@ + decimal(snapshots) + "\nNormal Files: "@
        + decimal(normal) + "\nEncrypted Files: "@ + decimal(encrypted)
        + "\n✅ Your backup is ready to be restored on another computer!"@
}

fn push_text(out: &mut Vec<char>, s: &str)
    ensures
        final(out)@ == old(out)@ + s@,
{
    push_all(out, &chars_of(s));
}

fn push_count(out: &mut Vec<char>, n: usize)
    ensures
        final(out)@ == old(out)@ + decimal(n as nat),
{
    push_decimal(out, n as u64);
}

/// Counts the files of `data/` whose path contains `enc`.
pub fn count_encrypted(paths: &Vec<String>) -> (r: usize)
    ensures
        r == encrypted_count(texts(paths@)),
{
    let enc = chars_of("enc");
    let mut count: usize = 0;
    let mut i: usize = 0;
    while i < paths.len()
        invariant
            i <= paths@.len(),
            enc@ == "enc"@,
            count == encrypted_count(texts(paths@).take(i as int)),
            count <= i,
        decreases paths@.len() - i,
    {
        let p = chars_of(paths[i].as_str());
        let hit = contains_chars(&p, &enc);
        proof {
            assert(texts(paths@).take(i + 1).drop_last() =~= texts(paths@).take(i as int));
        }
        if hit {
            count = count + 1;
        }
        i = i + 1;
    }
    assert(texts(paths@).take(paths@.len() as int) =~= texts(paths@));
    count
}

fn add_text(v: &mut Vec<String>, s: &str)
    ensures
        texts(final(v)@) == texts(old(v)@).push(s@),
{
    v.push(s.to_string());
    assert(texts(v@) =~= texts(old(v)@).push(s@));
}

/// The conclusion of the integrity check of the folder `backup_path`, from
/// whether its `snapshots/` and `data/` directories exist, the number of
/// entries of `snapshots/` and the paths of the files of `data/`. The backup
/// is valid when both directories exist and there is a snapshot; files of
/// `data/` whose path contains `enc` count as encrypted, the others as normal.
pub fn assess_integrity(
    backup_path: &str,
    has_snapshots_dir: bool,
    has_data_dir: bool,
    snapshots_count: usize,
    data_files: &Vec<String>,
) -> (r: IntegrityStatus)
    ensures
        r.backup_path@ == backup_path@,
        r.is_valid == (has_snapshots_dir && has_data_dir && snapshots_count > 0),
        r.snapshots_count == snapshots_count,
        r.encrypted_files_count == (if has_data_dir {
            encrypted_count(texts(data_files@))
        } else {
            0
        }),
        r.data_files_count == (if has_data_dir {
            data_files@.len() - encrypted_count(texts(data_files@))
        } else {
            0
        }),
        texts(r.issues@) == integrity_issues(
            has_snapshots_dir,
            has_data_dir,
            snapshots_count as nat,
        ),
        texts(r.suggestions@) == integrity_suggestions(
            has_snapshots_dir,
            has_data_dir,
            snapshots_count as nat,
        ),
        r.status@ == (if r.is_valid {
            integrity_report(
                backup_path@,
                snapshots_count as nat,
                r.data_files_count as nat,
                r.encrypted_files_count as nat,
            )
        } else {
            "❌ Backup is invalid or incomplete"@
        }),
{
    let mut issues: Vec<String> = Vec::new();
    let mut suggestions: Vec<String> = Vec::new();
    if !has_snapshots_dir {
        add_text(&mut issues, "❌ 'snapshots/' directory not found");
        add_text(&mut suggestions, "Verify that the entire folder was copied");
    }
    if !has_data_dir {
        add_text(&mut issues, "❌ 'data/' directory not found");
        add_text(&mut suggestions, "Re-copy the complete backup from the original computer");
    }
    let (normal, encrypted) = if has_data_dir {
        let e = count_encrypted(data_files);
        proof {
            lemma_encrypted_count_le(texts(data_files@));
        }
        (data_files.len() - e, e)
    } else {
        (0, 0)
    };
    if snapshots_count == 0 {
        add_text(&mut issues, "⚠️ No snapshots found");
        add_text(&mut suggestions, "The backup may be corrupted or incomplete");
    }
    proof {
        assert(texts(issues@) =~= integrity_issues(
            has_snapshots_dir,
            has_data_dir,
            snapshots_count as nat,
        ));
        assert(texts(suggestions@) =~= integrity_suggestions(
            has_snapshots_dir,
            has_data_dir,
            snapshots_count as nat,
        ));
    }
    let is_valid = has_snapshots_dir && has_data_dir && snapshots_count > 0;
    let status = if is_valid {
        let mut out: Vec<char> = Vec::new();
        push_text(&mut out, "✅ Integrity Report\n📁 ");
        push_text(&mut out, backup_path);
        push_text(&mut out, "\nSnapshots: ");
        push_count(&mut out, snapshots_count);
        push_text(&mut out, "\nNormal Files: ");
        push_count(&mut out, normal);
        push_text(&mut out, "\nEncrypted Files: ");
        push_count(&mut out, encrypted);
        push_text(&mut out, "\n✅ Your backup is ready to be restored on another computer!");
        string_from_chars(out)
    } else {
        "❌ Backup is invalid or incomplete".to_string()
    };
    IntegrityStatus {
        backup_path: backup_path.to_string(),
        status,
        is_valid,
        snapshots_count,
        data_files_count: normal,
        encrypted_files_count: encrypted,
        issues,
        suggestions,
    }
}

/// The status line after the check.
pub fn integrity_status_line(is_valid: bool) -> (r: String)
    ensures
        r@ == (if is_valid {
            "✅ Verification completed successfully!"@
        } else {
            "❌ Verification completed with issues"@
        }),
{
    if is_valid {
        "✅ Verification completed successfully!".to_string()
    } else {
        "❌ Verification completed with issues".to_string()
    }
}

} // verus!
