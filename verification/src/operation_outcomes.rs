//! What the backup, verify, restore and prune screens make of a finished
//! run: the history record, the notification sent to the integrations, and
//! the status line shown to the user.

use vstd::prelude::*;
use crate::numeric::{chars_of, decimal, push_decimal};
use crate::error_handler::{format_user_error, user_error_message};
use crate::operations_helpers::{
    OperationRecord,
    opt_view,
    record_backup_operation,
    record_prune_operation,
    record_restore_operation,
    record_verify_operation,
};
use crate::text::{push_all, string_from_chars};

verus! {

/// The operations that the desktop screens run.
#[derive(PartialEq, Eq, Structural, Debug, Clone, Copy)]
pub enum RunKind {
    Backup,
    Verify,
    Restore,
    Prune,
}

/// What the engine reports of a run that finished.
pub struct RunReport {
    pub status: String,
    pub files_processed: usize,
    pub files_with_errors: usize,
    pub duration_secs: u64,
}

/// The history record of a backup that finished with `outcome`. A finished
/// run records its status, files and duration, and as size its duration
/// followed by `B`; a failed run is recorded as `Failed` with nothing done.
pub fn backup_record(outcome: &Result<RunReport, String>, source: &str, destination: &str) -> (r:
    OperationRecord)
    ensures
        r.operation_type@ == "Backup"@,
        r.files_skipped == 0,
        r.files_with_errors == 0,
        opt_view(r.source) == Some(source@),
        opt_view(r.destination) == Some(destination@),
        match outcome {
            Ok(rep) => {
                &&& r.status@ == rep.status@
                &&& r.files_processed == rep.files_processed
                &&& r.duration_secs == rep.duration_secs
                &&& r.size_info@ == decimal(rep.duration_secs as nat) + "B"@
            },
            Err(_) => {
                &&& r.status@ == "Failed"@
                &&& r.files_processed == 0
                &&& r.duration_secs == 0
                &&& r.size_info@ == "0B"@
            },
        },
{
    match outcome {
        Ok(rep) => {
            let mut size: Vec<char> = Vec::new();
            push_decimal(&mut size, rep.duration_secs);
            push_all(&mut size, &chars_of("B"));
            record_backup_operation(
                rep.status.clone(),
                rep.files_processed,
                rep.duration_secs,
                string_from_chars(size),
                source.to_string(),
                destination.to_string(),
            )
        },
        Err(_) => record_backup_operation(
            "Failed".to_string(),
            0,
            0,
            "0B".to_string(),
            source.to_string(),
            destination.to_string(),
        ),
    }
}

/// The history record of a verification that finished with `outcome`; a
/// failed run is recorded as `Falha` with nothing checked.
pub fn verify_record(outcome: &Result<RunReport, String>, backup_path: &str) -> (r: OperationRecord)
    ensures
        r.operation_type@ == "Verify"@,
        r.files_skipped == 0,
        r.size_info@ == "N/A"@,
        opt_view(r.source) == Some(backup_path@),
        r.destination is None,
        match outcome {
            Ok(rep) => {
                &&& r.status@ == rep.status@
                &&& r.files_processed == rep.files_processed
                &&& r.files_with_errors == rep.files_with_errors
                &&& r.duration_secs == rep.duration_secs
            },
            Err(_) => {
                &&& r.status@ == "Falha"@
                &&& r.files_processed == 0
                &&& r.files_with_errors == 0
                &&& r.duration_secs == 0
            },
        },
{
    match outcome {
        Ok(rep) => record_verify_operation(
            rep.status.clone(),
            rep.files_processed,
            rep.files_with_errors,
            rep.duration_secs,
            backup_path.to_string(),
        ),
        Err(_) => record_verify_operation("Falha".to_string(), 0, 0, 0, backup_path.to_string()),
    }
}

/// The history record of a restore that finished with `outcome`; a failed
/// run is recorded as `Falha` with nothing restored.
pub fn restore_record(outcome: &Result<RunReport, String>, backup_path: &str, target: &str) -> (r:
    OperationRecord)
    ensures
        r.operation_type@ == "Restore"@,
        r.files_skipped == 0,
        r.files_with_errors == 0,
        r.size_info@ == "N/A"@,
        opt_view(r.source) == Some(backup_path@),
        opt_view(r.destination) == Some(target@),
        match outcome {
            Ok(rep) => {
                &&& r.status@ == rep.status@
                &&& r.files_processed == rep.files_processed
                &&& r.duration_secs == rep.duration_secs
            },
            Err(_) => {
                &&& r.status@ == "Falha"@
                &&& r.files_processed == 0
                &&& r.duration_secs == 0
            },
        },
{
    match outcome {
        Ok(rep) => record_restore_operation(
            rep.status.clone(),
            rep.files_processed,
            rep.duration_secs,
            backup_path.to_string(),
            target.to_string(),
        ),
        Err(_) => record_restore_operation(
            "Falha".to_string(),
            0,
            0,
            backup_path.to_string(),
            target.to_string(),
        ),
    }
}

/// The history record of a prune: `Sucesso` with the space freed unknown
/// (`N/A`), or `Falha` with nothing freed (`0B`).
pub fn prune_record(succeeded: bool, repo_path: &str) -> (r: OperationRecord)
    ensures
        r.operation_type@ == "Prune"@,
        r.files_processed == 0,
        r.files_skipped == 0,
        r.files_with_errors == 0,
        r.duration_secs == 0,
        opt_view(r.source) == Some(repo_path@),
        r.destination is None,
        r.status@ == (if succeeded {
            "Sucesso"@
        } else {
            "Falha"@
        }),
        r.size_info@ == "Liberado: "@ + (if succeeded {
            "N/A"@
        } else {
            "0B"@
        }),
{
    if succeeded {
        record_prune_operation("Sucesso".to_string(), 0, 0, "N/A".to_string(), repo_path.to_string())
    } else {
        record_prune_operation("Falha".to_string(), 0, 0, "0B".to_string(), repo_path.to_string())
    }
}

/// The events that the screens report to the notification integrations.
#[derive(PartialEq, Eq, Structural, Debug, Clone, Copy)]
pub enum NoticeEvent {
    BackupCompleted,
    BackupFailed,
    VerificationCompleted,
    VerificationFailed,
}

/// A notification of a finished run (the time stamp is added when it is sent).
pub struct Notice {
    pub event: NoticeEvent,
    pub title: String,
    pub message: String,
    pub details: Option<String>,
}

/// The details line naming the folders of a backup.
pub open spec fn backup_details(source: Seq<char>, destination: Seq<char>) -> Seq<char> {
    "Origem: "@ + source + "\nDestino: "@ + destination
}

/// The message of a finished backup.
pub open spec fn backup_summary(rep: RunReport) -> Seq<char> {
    "Arquivos: "@ + decimal(rep.files_processed as nat) + "\nDuração: "@ + decimal(
        rep.duration_secs as nat,
    ) + "s\nStatus: "@ + rep.status@
}

/// The message of a finished verification.
pub open spec fn verify_summary(rep: RunReport) -> Seq<char> {
    "Arquivos: "@ + decimal(rep.files_processed as nat) + "\nErros: "@ + decimal(
        rep.files_with_errors as nat,
    ) + "\nDuração: "@ + decimal(rep.duration_secs as nat) + "s"@
}

fn push_count(out: &mut Vec<char>, n: usize)
    ensures
        final(out)@ == old(out)@ + decimal(n as nat),
{
    push_decimal(out, n as u64);
}

fn push_text(out: &mut Vec<char>, s: &str)
    ensures
        final(out)@ == old(out)@ + s@,
{
    push_all(out, &chars_of(s));
}

/// The notification sent when a backup ends: its files, duration and status
/// when it finished, its error when it failed, and both folders either way.
pub fn backup_notice(outcome: &Result<RunReport, String>, source: &str, destination: &str) -> (r:
    Notice)
    ensures
        opt_view(r.details) == Some(backup_details(source@, destination@)),
        match outcome {
            Ok(rep) => {
                &&& r.event == NoticeEvent::BackupCompleted
                &&& r.title@ == "✅ Backup Concluído"@
                &&& r.message@ == backup_summary(*rep)
            },
            Err(e) => {
                &&& r.event == NoticeEvent::BackupFailed
                &&& r.title@ == "❌ Backup Falhou"@
                &&& r.message@ == "Erro: "@ + e@
            },
        },
{
    let mut details: Vec<char> = Vec::new();
    push_text(&mut details, "Origem: ");
    push_text(&mut details, source);
    push_text(&mut details, "\nDestino: ");
    push_text(&mut details, destination);
    let mut message: Vec<char> = Vec::new();
    match outcome {
        Ok(rep) => {
            push_text(&mut message, "Arquivos: ");
            push_count(&mut message, rep.files_processed);
            push_text(&mut message, "\nDuração: ");
            push_decimal(&mut message, rep.duration_secs);
            push_text(&mut message, "s\nStatus: ");
            push_text(&mut message, rep.status.as_str());
            Notice {
                event: NoticeEvent::BackupCompleted,
                title: "✅ Backup Concluído".to_string(),
                message: string_from_chars(message),
                details: Some(string_from_chars(details)),
            }
        },
        Err(e) => {
            push_text(&mut message, "Erro: ");
            push_text(&mut message, e.as_str());
            Notice {
                event: NoticeEvent::BackupFailed,
                title: "❌ Backup Falhou".to_string(),
                message: string_from_chars(message),
                details: Some(string_from_chars(details)),
            }
        },
    }
}

/// The notification sent when a verification ends. A verification that
/// finished with files in error is reported as failed, with its own title.
pub fn verify_notice(outcome: &Result<RunReport, String>, backup_path: &str) -> (r: Notice)
    ensures
        opt_view(r.details) == Some("Backup: "@ + backup_path@),
        match outcome {
            Ok(rep) => {
                &&& r.message@ == verify_summary(*rep)
                &&& if rep.files_with_errors > 0 {
                    &&& r.event == NoticeEvent::VerificationFailed
                    &&& r.title@ == "⚠️ Verificação Concluída com Erros"@
                } else {
                    &&& r.event == NoticeEvent::VerificationCompleted
                    &&& r.title@ == "✅ Verificação Concluída"@
                }
            },
            Err(e) => {
                &&& r.event == NoticeEvent::VerificationFailed
                &&& r.title@ == "❌ Verificação Falhou"@
                &&& r.message@ == "Erro: "@ + e@
            },
        },
{
    let mut details: Vec<char> = Vec::new();
    push_text(&mut details, "Backup: ");
    push_text(&mut details, backup_path);
    let mut message: Vec<char> = Vec::new();
    match outcome {
        Ok(rep) => {
            push_text(&mut message, "Arquivos: ");
            push_count(&mut message, rep.files_processed);
            push_text(&mut message, "\nErros: ");
            push_count(&mut message, rep.files_with_errors);
            push_text(&mut message, "\nDuração: ");
            push_decimal(&mut message, rep.duration_secs);
            push_text(&mut message, "s");
            let with_errors = rep.files_with_errors > 0;
            Notice {
                event: if with_errors {
                    NoticeEvent::VerificationFailed
                } else {
                    NoticeEvent::VerificationCompleted
                },
                title: if with_errors {
                    "⚠️ Verificação Concluída com Erros".to_string()
                } else {
                    "✅ Verificação Concluída".to_string()
                },
                message: string_from_chars(message),
                details: Some(string_from_chars(details)),
            }
        },
        Err(e) => {
            push_text(&mut message, "Erro: ");
            push_text(&mut message, e.as_str());
            Notice {
                event: NoticeEvent::VerificationFailed,
                title: "❌ Verificação Falhou".to_string(),
                message: string_from_chars(message),
                details: Some(string_from_chars(details)),
            }
        },
    }
}

/// What became of the HTML report of a run.
pub enum ReportOutcome {
    /// No report was asked for.
    NotAsked,
    /// The report was written to the file of that name.
    Written(String),
    /// Writing the report failed.
    WriteFailed,
}

/// The file name of the HTML report of a run, from the time stamp
/// `YYYYmmdd-HHMMSS` of its end.
pub fn report_file_name(kind: RunKind, stamp: &str) -> (r: String)
    requires
        kind != RunKind::Prune,
    ensures
        r@ == "rsb-report-"@ + run_name(kind) + "-"@ + stamp@ + ".html"@,
{
    let mut out: Vec<char> = Vec::new();
    push_text(&mut out, "rsb-report-");
    push_text(
        &mut out,
        match kind {
            RunKind::Backup => "backup",
            RunKind::Verify => "verify",
            _ => "restore",
        },
    );
    push_text(&mut out, "-");
    push_text(&mut out, stamp);
    push_text(&mut out, ".html");
    string_from_chars(out)
}

/// The lower-case name of an operation.
pub open spec fn run_name(kind: RunKind) -> Seq<char> {
    match kind {
        RunKind::Backup => "backup"@,
        RunKind::Verify => "verify"@,
        RunKind::Restore => "restore"@,
        RunKind::Prune => "prune"@,
    }
}

/// The note added to the status when the report could not be written: in
/// English on the backup screen, in Portuguese on the others.
pub open spec fn report_failure_note(kind: RunKind) -> Seq<char> {
    if kind == RunKind::Backup {
        " (Error writing report)"@
    } else {
        " (Erro ao gravar relatório)"@
    }
}

/// The status line of a run that finished with `status`: followed by the
/// report's file name when one was written, or by a note when writing it failed.
pub fn finished_status(kind: RunKind, status: &str, report: &ReportOutcome) -> (r: String)
    requires
        kind != RunKind::Prune,
    ensures
        r@ == match report {
            ReportOutcome::NotAsked => status@,
            ReportOutcome::Written(f) => status@ + " Relatório: "@ + f@,
            ReportOutcome::WriteFailed => status@ + report_failure_note(kind),
        },
{
    let mut out = chars_of(status);
    match report {
        ReportOutcome::NotAsked => {},
        ReportOutcome::Written(f) => {
            push_text(&mut out, " Relatório: ");
            push_text(&mut out, f.as_str());
        },
        ReportOutcome::WriteFailed => {
            if kind == RunKind::Backup {
                push_text(&mut out, " (Error writing report)");
            } else {
                push_text(&mut out, " (Erro ao gravar relatório)");
            }
        },
    }
    string_from_chars(out)
}

/// The status shown when the user cancels a run (a prune cannot be cancelled).
pub fn cancel_message(kind: RunKind) -> (r: String)
    requires
        kind != RunKind::Prune,
    ensures
        r@ == (if kind == RunKind::Backup {
            "⏹️ Backup canceled by user"@
        } else if kind == RunKind::Verify {
            "⏹️ Verificação cancelada pelo usuário"@
        } else {
            "⏹️  Restore canceled by user"@
        }),
{
    match kind {
        RunKind::Backup => "⏹️ Backup canceled by user".to_string(),
        RunKind::Verify => "⏹️ Verificação cancelada pelo usuário".to_string(),
        _ => "⏹️  Restore canceled by user".to_string(),
    }
}

/// The status shown when a profile was loaded into a screen.
pub fn profile_loaded_message(kind: RunKind) -> (r: String)
    ensures
        r@ == (if kind == RunKind::Verify {
            "✅ Perfil carregado com sucesso!"@
        } else {
            "✅ Profile loaded successfully!"@
        }),
{
    if kind == RunKind::Verify {
        "✅ Perfil carregado com sucesso!".to_string()
    } else {
        "✅ Profile loaded successfully!".to_string()
    }
}

/// The status shown when loading a profile failed with `error`: the restore
/// screen shows the error itself, the others its friendly message.
pub fn profile_load_error_message(kind: RunKind, error: &str) -> (r: String)
    ensures
        r@ == (if kind == RunKind::Restore {
            "❌ Error loading profile: "@ + error@
        } else {
            user_error_message(crate::error_handler::lowercase(error@))
        }),
{
    if kind == RunKind::Restore {
        let mut out = chars_of("❌ Error loading profile: ");
        push_text(&mut out, error);
        string_from_chars(out)
    } else {
        format_user_error(error, run_name_text(kind))
    }
}

fn run_name_text(kind: RunKind) -> (r: &'static str)
    ensures
        r@ == run_name(kind),
{
    match kind {
        RunKind::Backup => "backup",
        RunKind::Verify => "verify",
        RunKind::Restore => "restore",
        RunKind::Prune => "prune",
    }
}

} // verus!
