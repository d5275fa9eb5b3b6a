//! Scenarios of restoring from a portable backup through the command line
//! that have no checks of their own yet.

#[test]
fn test_cli_restore_error_handling_incomplete_backup() {
    // Error handling for incomplete backups: the user is told to copy the
    // backup again from the original computer.
}

#[test]
fn test_cli_restore_portable_preserves_structure() {
    // A portable restore keeps the directory structure, file permissions,
    // timestamps and nested directories.
}

#[test]
fn test_cli_restore_portable_with_encryption() {
    // rsb restore --backup /path/to/backup --target /restore --key password
    // decrypts the files without the original configuration file.
}

#[test]
fn test_cli_restore_portable_versioned_output() {
    // rsb restore --backup /path/to/backup --target /restore --versioned
    // creates a timestamped folder: /restore/YYYYMMDD_HHmmss/
}

#[test]
fn test_desktop_portable_language_support_keys() {
    // The translations include every message of portable restores:
    // portable_mode_label, portable_backup_loaded, backup_validation_failed,
    // snapshots_found, data_files_found, load_backup_directly.
}
