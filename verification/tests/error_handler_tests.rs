use rs_shield::error_handler::{
    classify_user_error, decorate_operation_error, format_operation_error, format_user_error,
    get_error_message_only, strip_emoji_markers,
};

#[test]
fn test_connection_error() {
    let error = "Connection refused";
    let result = format_user_error(error, "test");
    assert!(result.contains("Connection error"));
}

#[test]
fn test_file_not_found() {
    let error = "No such file or directory";
    let result = format_user_error(error, "test");
    assert!(result.contains("not found"));
}

#[test]
fn test_fido2_error() {
    let error = "FIDO2 credential failed";
    let result = format_user_error(error, "test");
    assert!(result.contains("security key"));
}

#[test]
fn user_error_matching_ignores_case() {
    assert_eq!(
        format_user_error("TIMEOUT while waiting", "sync"),
        "⏱️ The operation took too long. Please try again."
    );
}

#[test]
fn user_error_first_rule_wins() {
    // "connection reset" comes before "timeout" in the rules.
    assert_eq!(
        format_user_error("connection reset after timeout", "x"),
        "❌ Connection error. Please check your network and try again."
    );
    // "not found" is checked before "decrypt".
    assert_eq!(
        format_user_error("key not found, cannot decrypt", "x"),
        "📁 File or folder not found. Please verify the path."
    );
}

#[test]
fn user_error_each_rule() {
    let cases = [
        ("unauthorized", "🔐 Authentication expired. Please authenticate again."),
        ("invalid token", "🔐 Authentication expired. Please authenticate again."),
        ("authentication failed", "❌ Authentication failed. Please verify your security key."),
        ("permission denied", "🔒 Permission denied. Please check the folder permissions."),
        ("no space left on device", "💾 Insufficient disk space. Free up some space and try again."),
        ("decryption error", "🔐 Failed to decrypt data. Please verify the encryption key."),
        ("could not encrypt", "🔐 Failed to encrypt data. Please try again."),
        ("backup step failed", "💾 Backup failed. Please check the destination and try again."),
        ("restore has failed", "📂 Restore failed. Please verify the snapshot and try again."),
        ("json syntax", "📄 Failed to process data. Please try reloading the application."),
        ("bad credential", "🔑 security key error. Please reconnect it or verify the connection."),
        ("recovery code rejected", "🔐 Invalid or already used recovery code."),
        ("HTTP 500", "🖥️ Server error. Please try again in a few moments."),
        ("503 Service Unavailable", "🖥️ Service temporarily unavailable. Please try again later."),
        ("something odd", "❌ An unexpected error occurred. Please try again."),
    ];
    for (input, expected) in cases {
        assert_eq!(format_user_error(input, "t"), expected, "input {input}");
    }
}

#[test]
fn classify_takes_lowercase_text() {
    // Already lower-case text is classified without further conversion.
    assert_eq!(
        classify_user_error("permission denied"),
        "🔒 Permission denied. Please check the folder permissions."
    );
    // Upper-case text does not match the lower-case phrases.
    assert_eq!(
        classify_user_error("PERMISSION DENIED"),
        "❌ An unexpected error occurred. Please try again."
    );
}

#[test]
fn operation_error_adds_context() {
    assert_eq!(
        format_operation_error("Connection refused", "backup"),
        "💾 Backup error: Connection error. Please check your network and try again."
    );
    assert_eq!(
        format_operation_error("backup failed", "backup"),
        "💾 Backup failed. Please check the destination and try again."
    );
    assert_eq!(
        format_operation_error("weird", "verify"),
        "🔍 Verification error: An unexpected error occurred. Please try again."
    );
    assert_eq!(
        format_operation_error("invalid token", "auth"),
        "🔐 Authentication expired. Please authenticate again."
    );
    assert_eq!(
        format_operation_error("weird", "authentication"),
        "🔐 Authentication error: An unexpected error occurred. Please try again."
    );
    assert_eq!(
        format_operation_error("timeout", "fido2"),
        "🔑 Security key error: ⏱️ The operation took too long. Please try again."
    );
    assert_eq!(
        format_operation_error("FIDO2 error", "fido2"),
        "🔑 security key error. Please reconnect it or verify the connection."
    );
    assert_eq!(
        format_operation_error("timeout", "other"),
        "⏱️ The operation took too long. Please try again."
    );
}

#[test]
fn decorate_keeps_message_naming_operation() {
    assert_eq!(decorate_operation_error("Restore done wrong", "restore"), "Restore done wrong");
    assert_eq!(
        decorate_operation_error("❌ x ❌ y", "restore"),
        "📂 Restore error: x y"
    );
}

#[test]
fn message_only_removes_markers() {
    assert_eq!(
        get_error_message_only("Connection refused", "x"),
        "Connection error. Please check your network and try again."
    );
    assert_eq!(
        get_error_message_only("HTTP 500", "x"),
        "Server error. Please try again in a few moments."
    );
    assert_eq!(strip_emoji_markers("🔑 a 📄 b"), "a b");
    for e in [
        "connection reset", "timeout", "invalid token", "authentication failed", "no such file",
        "permission denied", "no space", "decrypt", "encrypt", "backup failed", "restore failed",
        "parse", "recovery code", "503", "weird",
    ] {
        let m = get_error_message_only(e, "x");
        assert!(m.chars().next().unwrap().is_ascii_uppercase(), "{e}: {m}");
    }
    assert!(get_error_message_only("fido2", "x").starts_with("security key error"));
}
