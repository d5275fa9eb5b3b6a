use rs_shield::operation_outcomes::{
    backup_notice, backup_record, cancel_message, finished_status, profile_load_error_message,
    profile_loaded_message, prune_record, report_file_name, restore_record, verify_notice,
    verify_record, NoticeEvent, ReportOutcome, RunKind, RunReport,
};

fn report(errors: usize) -> RunReport {
    RunReport { status: "OK".to_string(), files_processed: 12, files_with_errors: errors, duration_secs: 65 }
}

#[test]
fn backup_records() {
    let r = backup_record(&Ok(report(0)), "/s", "/d");
    assert_eq!(r.operation_type, "Backup");
    assert_eq!(r.status, "OK");
    assert_eq!(r.files_processed, 12);
    assert_eq!(r.duration_secs, 65);
    assert_eq!(r.size_info, "65B");
    assert_eq!(r.source, Some("/s".to_string()));
    let f = backup_record(&Err("boom".to_string()), "/s", "/d");
    assert_eq!(f.status, "Failed");
    assert_eq!(f.size_info, "0B");
    assert_eq!(f.files_processed, 0);
}

#[test]
fn verify_restore_prune_records() {
    let v = verify_record(&Ok(report(2)), "/b");
    assert_eq!((v.status.as_str(), v.files_with_errors, v.destination), ("OK", 2, None));
    assert_eq!(verify_record(&Err("x".to_string()), "/b").status, "Falha");
    let r = restore_record(&Ok(report(0)), "/b", "/t");
    assert_eq!(r.destination, Some("/t".to_string()));
    assert_eq!(r.size_info, "N/A");
    assert_eq!(restore_record(&Err("x".to_string()), "/b", "/t").status, "Falha");
    assert_eq!(prune_record(true, "/r").status, "Sucesso");
    assert_eq!(prune_record(true, "/r").size_info, "Liberado: N/A");
    assert_eq!(prune_record(false, "/r").size_info, "Liberado: 0B");
}

#[test]
fn backup_notices() {
    let n = backup_notice(&Ok(report(0)), "/s", "/d");
    assert_eq!(n.event, NoticeEvent::BackupCompleted);
    assert_eq!(n.title, "✅ Backup Concluído");
    assert_eq!(n.message, "Arquivos: 12\nDuração: 65s\nStatus: OK");
    assert_eq!(n.details, Some("Origem: /s\nDestino: /d".to_string()));
    let f = backup_notice(&Err("disk full".to_string()), "/s", "/d");
    assert_eq!(f.event, NoticeEvent::BackupFailed);
    assert_eq!(f.title, "❌ Backup Falhou");
    assert_eq!(f.message, "Erro: disk full");
}

#[test]
fn verify_notices() {
    let ok = verify_notice(&Ok(report(0)), "/b");
    assert_eq!(ok.event, NoticeEvent::VerificationCompleted);
    assert_eq!(ok.title, "✅ Verificação Concluída");
    assert_eq!(ok.message, "Arquivos: 12\nErros: 0\nDuração: 65s");
    assert_eq!(ok.details, Some("Backup: /b".to_string()));
    let bad = verify_notice(&Ok(report(3)), "/b");
    assert_eq!(bad.event, NoticeEvent::VerificationFailed);
    assert_eq!(bad.title, "⚠️ Verificação Concluída com Erros");
    let failed = verify_notice(&Err("x".to_string()), "/b");
    assert_eq!(failed.title, "❌ Verificação Falhou");
    assert_eq!(failed.message, "Erro: x");
}

#[test]
fn status_lines() {
    assert_eq!(report_file_name(RunKind::Backup, "20240102-030405"), "rsb-report-backup-20240102-030405.html");
    assert_eq!(report_file_name(RunKind::Verify, "s"), "rsb-report-verify-s.html");
    assert_eq!(finished_status(RunKind::Backup, "OK", &ReportOutcome::NotAsked), "OK");
    assert_eq!(
        finished_status(RunKind::Restore, "OK", &ReportOutcome::Written("r.html".to_string())),
        "OK Relatório: r.html"
    );
    assert_eq!(finished_status(RunKind::Backup, "OK", &ReportOutcome::WriteFailed), "OK (Error writing report)");
    assert_eq!(finished_status(RunKind::Verify, "OK", &ReportOutcome::WriteFailed), "OK (Erro ao gravar relatório)");
    assert_eq!(cancel_message(RunKind::Backup), "⏹️ Backup canceled by user");
    assert_eq!(cancel_message(RunKind::Verify), "⏹️ Verificação cancelada pelo usuário");
    assert_eq!(cancel_message(RunKind::Restore), "⏹️  Restore canceled by user");
    assert_eq!(profile_loaded_message(RunKind::Verify), "✅ Perfil carregado com sucesso!");
    assert_eq!(profile_loaded_message(RunKind::Prune), "✅ Profile loaded successfully!");
    assert_eq!(profile_load_error_message(RunKind::Restore, "bad toml"), "❌ Error loading profile: bad toml");
    assert_eq!(
        profile_load_error_message(RunKind::Backup, "No such file or directory"),
        "📁 File or folder not found. Please verify the path."
    );
}
