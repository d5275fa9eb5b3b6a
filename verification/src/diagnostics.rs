//! Health checks shown on the diagnostics screen: each check's status, how
//! it is drawn, and how many checks are in each state.

use vstd::prelude::*;

verus! {

/// The state of one diagnostic check.
#[derive(Clone, Copy, PartialEq, Eq, Structural, Debug)]
pub enum DiagnosticStatus {
    Healthy,
    Warning,
    Critical,
}

impl DiagnosticStatus {
    /// The colour family the check is drawn in.
    pub fn color(&self) -> (r: &'static str)
        ensures
            r@ == (match *self {
                DiagnosticStatus::Healthy => "emerald"@,
                DiagnosticStatus::Warning => "yellow"@,
                DiagnosticStatus::Critical => "red"@,
            }),
    {
        match self {
            DiagnosticStatus::Healthy => "emerald",
            DiagnosticStatus::Warning => "yellow",
            DiagnosticStatus::Critical => "red",
        }
    }

    /// The icon shown beside the check.
    pub fn icon(&self) -> (r: &'static str)
        ensures
            r@ == (match *self {
                DiagnosticStatus::Healthy => "✅"@,
                DiagnosticStatus::Warning => "⚠️"@,
                DiagnosticStatus::Critical => "❌"@,
            }),
    {
        match self {
            DiagnosticStatus::Healthy => "✅",
            DiagnosticStatus::Warning => "⚠️",
            DiagnosticStatus::Critical => "❌",
        }
    }
}

/// One diagnostic check and its outcome.
pub struct DiagnosticInfo {
    pub category: String,
    pub status: DiagnosticStatus,
    pub message: String,
    pub details: Option<String>,
}

/// How many of `checks` are in the state `status`.
pub open spec fn count_status(checks: Seq<DiagnosticInfo>, status: DiagnosticStatus) -> nat
    decreases checks.len(),
{
    if checks.len() == 0 {
        0
    } else {
        count_status(checks.drop_last(), status) + (if checks.last().status == status {
            1nat
        } else {
            0nat
        })
    }
}

proof fn lemma_count_bound(checks: Seq<DiagnosticInfo>, status: DiagnosticStatus)
    ensures
        count_status(checks, status) <= checks.len(),
    decreases checks.len(),
{
    if checks.len() > 0 {
        lemma_count_bound(checks.drop_last(), status);
    }
}

/// Counts the checks in the state `status`.
pub fn count_with_status(checks: &Vec<DiagnosticInfo>, status: DiagnosticStatus) -> (r: usize)
    ensures
        r == count_status(checks@, status),
{
    let mut n: usize = 0;
    let mut i: usize = 0;
    while i < checks.len()
        invariant
            i <= checks@.len(),
            n == count_status(checks@.take(i as int), status),
        decreases checks@.len() - i,
    {
        proof {
            assert(checks@.take(i + 1).drop_last() =~= checks@.take(i as int));
            lemma_count_bound(checks@.take(i as int), status);
        }
        if checks[i].status == status {
            n = n + 1;
        }
        i = i + 1;
    }
    assert(checks@.take(checks@.len() as int) =~= checks@);
    n
}

/// Every check is counted in exactly one of the three states.
pub proof fn law_counts_add_up(checks: Seq<DiagnosticInfo>)
    ensures
        count_status(checks, DiagnosticStatus::Healthy) + count_status(
            checks,
            DiagnosticStatus::Warning,
        ) + count_status(checks, DiagnosticStatus::Critical) == checks.len(),
    decreases checks.len(),
{
    if checks.len() > 0 {
        law_counts_add_up(checks.drop_last());
    }
}

/// The checks that the diagnostics screen reports: category, state, message
/// and details of each, in order.
pub open spec fn reported_checks() -> Seq<(Seq<char>, DiagnosticStatus, Seq<char>, Seq<char>)> {
    seq![
        ("Storage"@, DiagnosticStatus::Healthy, "Disk space available: 250 GB"@, "Backup directory: ~/backups"@),
        ("Configuration"@, DiagnosticStatus::Healthy, "Configuration file is valid"@, "Default profile loaded successfully"@),
        ("Encryption"@, DiagnosticStatus::Healthy, "Encryption key available"@, "Algorithm: AES-256-GCM"@),
        ("FIDO2"@, DiagnosticStatus::Warning, "No FIDO2 key configured"@, "Consider adding a key for biometric authentication"@),
        ("Last Backup"@, DiagnosticStatus::Healthy, "Backup completed successfully"@, "Time: 2 hours ago | 1,234 files | 12 GB"@),
    ]
}

/// A check as its texts.
pub open spec fn check_view(c: DiagnosticInfo) -> (Seq<char>, DiagnosticStatus, Seq<char>, Seq<char>) {
    (c.category@, c.status, c.message@, match c.details {
        Some(d) => d@,
        None => seq![],
    })
}

fn check(category: &str, status: DiagnosticStatus, message: &str, details: &str) -> (r: DiagnosticInfo)
    ensures
        check_view(r) == (category@, status, message@, details@),
        r.details is Some,
{
    DiagnosticInfo {
        category: category.to_string(),
        status,
        message: message.to_string(),
        details: Some(details.to_string()),
    }
}

/// The checks that a diagnostics run reports, each with details.
pub fn run_diagnostics() -> (r: Vec<DiagnosticInfo>)
    ensures
        r@.map_values(|c: DiagnosticInfo| check_view(c)) == reported_checks(),
        forall|i: int| 0 <= i < r@.len() ==> (#[trigger] r@[i]).details is Some,
{
    let mut v: Vec<DiagnosticInfo> = Vec::new();
    v.push(check("Storage", DiagnosticStatus::Healthy, "Disk space available: 250 GB", "Backup directory: ~/backups"));
    v.push(check("Configuration", DiagnosticStatus::Healthy, "Configuration file is valid", "Default profile loaded successfully"));
    v.push(check("Encryption", DiagnosticStatus::Healthy, "Encryption key available", "Algorithm: AES-256-GCM"));
    v.push(check("FIDO2", DiagnosticStatus::Warning, "No FIDO2 key configured", "Consider adding a key for biometric authentication"));
    v.push(check("Last Backup", DiagnosticStatus::Healthy, "Backup completed successfully", "Time: 2 hours ago | 1,234 files | 12 GB"));
    assert(v@.map_values(|c: DiagnosticInfo| check_view(c)) =~= reported_checks());
    v
}

} // verus!
