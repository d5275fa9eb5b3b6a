//! Messages shown to users in place of technical error text.
//!
//! A technical error is lower-cased and matched against a fixed list of
//! phrases; the first phrase that occurs decides which friendly message is
//! shown. Operation names can add context, and the leading emoji can be
//! removed for plain-text display.

use vstd::prelude::*;
use crate::numeric::chars_of;
use crate::text::{
    contains_chars, replace_chars, replace_all, seq_contains, str_equal, string_from_chars,
    occurs_at, lemma_contains_prefix, seq_starts_with,
};

verus! {

/// Names what `str::to_lowercase` returns for `s`: every character mapped to its
/// Unicode lowercase form.
pub uninterp spec fn lowercase(s: Seq<char>) -> Seq<char>;

/// Calls `str::to_lowercase`; the result is the named value `lowercase(s@)`.
/// On ASCII text the Unicode lower case is the ASCII one: `A` to `Z` become
/// `a` to `z` and every other character stays.
#[verifier::external_body]
fn to_lowercase(s: &str) -> (r: String)
    ensures
        r@ == lowercase(s@),
        crate::text::ascii_text(s@) ==> r@ == crate::text::ascii_lower(s@),
{
    s.to_lowercase()
}

pub open spec fn msg_connection() -> Seq<char> { "❌ Connection error. Please check your network and try again."@ }
pub open spec fn msg_timeout() -> Seq<char> { "⏱️ The operation took too long. Please try again."@ }
pub open spec fn msg_auth_expired() -> Seq<char> { "🔐 Authentication expired. Please authenticate again."@ }
pub open spec fn msg_auth_failed() -> Seq<char> { "❌ Authentication failed. Please verify your security key."@ }
pub open spec fn msg_not_found() -> Seq<char> { "📁 File or folder not found. Please verify the path."@ }
pub open spec fn msg_permission() -> Seq<char> { "🔒 Permission denied. Please check the folder permissions."@ }
pub open spec fn msg_disk_space() -> Seq<char> { "💾 Insufficient disk space. Free up some space and try again."@ }
pub open spec fn msg_decrypt() -> Seq<char> { "🔐 Failed to decrypt data. Please verify the encryption key."@ }
pub open spec fn msg_encrypt() -> Seq<char> { "🔐 Failed to encrypt data. Please try again."@ }
pub open spec fn msg_backup_failed() -> Seq<char> { "💾 Backup failed. Please check the destination and try again."@ }
pub open spec fn msg_restore_failed() -> Seq<char> { "📂 Restore failed. Please verify the snapshot and try again."@ }
pub open spec fn msg_data_format() -> Seq<char> { "📄 Failed to process data. Please try reloading the application."@ }
pub open spec fn msg_security_key() -> Seq<char> { "🔑 security key error. Please reconnect it or verify the connection."@ }
pub open spec fn msg_recovery_code() -> Seq<char> { "🔐 Invalid or already used recovery code."@ }
pub open spec fn msg_server_error() -> Seq<char> { "🖥️ Server error. Please try again in a few moments."@ }
pub open spec fn msg_unavailable() -> Seq<char> { "🖥️ Service temporarily unavailable. Please try again later."@ }
pub open spec fn msg_unexpected() -> Seq<char> { "❌ An unexpected error occurred. Please try again."@ }

/// The friendly message for the lower-cased technical error text `e`: the
/// first rule, in this order, whose phrase occurs in `e` decides.
pub open spec fn user_error_message(e: Seq<char>) -> Seq<char> {
    let has = |p: Seq<char>| seq_contains(e, p);
    if has("connection refused"@) || has("connection reset"@) {
        msg_connection()
    } else if has("timeout"@) {
        msg_timeout()
    } else if has("unauthorized"@) || has("invalid token"@) {
        msg_auth_expired()
    } else if has("authentication failed"@) {
        msg_auth_failed()
    } else if has("not found"@) || has("no such file"@) {
        msg_not_found()
    } else if has("permission denied"@) {
        msg_permission()
    } else if has("disk space"@) || has("no space"@) {
        msg_disk_space()
    } else if has("decryption"@) || has("decrypt"@) {
        msg_decrypt()
    } else if has("encryption"@) || has("encrypt"@) {
        msg_encrypt()
    } else if has("backup"@) && has("failed"@) {
        msg_backup_failed()
    } else if has("restore"@) && has("failed"@) {
        msg_restore_failed()
    } else if has("json"@) || has("parse"@) {
        msg_data_format()
    } else if has("fido2"@) || has("security key"@) || has("credential"@) {
        msg_security_key()
    } else if has("recovery"@) && has("code"@) {
        msg_recovery_code()
    } else if has("500"@) || has("internal server error"@) {
        msg_server_error()
    } else if has("503"@) || has("service unavailable"@) {
        msg_unavailable()
    } else {
        msg_unexpected()
    }
}

/// Every message that `user_error_message` can give.
pub open spec fn is_catalogue_message(m: Seq<char>) -> bool {
    ||| m == msg_connection()
    ||| m == msg_timeout()
    ||| m == msg_auth_expired()
    ||| m == msg_auth_failed()
    ||| m == msg_not_found()
    ||| m == msg_permission()
    ||| m == msg_disk_space()
    ||| m == msg_decrypt()
    ||| m == msg_encrypt()
    ||| m == msg_backup_failed()
    ||| m == msg_restore_failed()
    ||| m == msg_data_format()
    ||| m == msg_security_key()
    ||| m == msg_recovery_code()
    ||| m == msg_server_error()
    ||| m == msg_unavailable()
    ||| m == msg_unexpected()
}

fn has(e: &Vec<char>, needle: &str) -> (r: bool)
    ensures
        r == seq_contains(e@, needle@),
{
    let n = chars_of(needle);
    contains_chars(e, &n)
}

/// The friendly message for `lowered`, an error text already in lower case.
pub fn classify_user_error(lowered: &str) -> (r: String)
    ensures
        r@ == user_error_message(lowered@),
{
    let e = chars_of(lowered);
    let m: &str = if has(&e, "connection refused") || has(&e, "connection reset") {
        "❌ Connection error. Please check your network and try again."
    } else if has(&e, "timeout") {
        "⏱️ The operation took too long. Please try again."
    } else if has(&e, "unauthorized") || has(&e, "invalid token") {
        "🔐 Authentication expired. Please authenticate again."
    } else if has(&e, "authentication failed") {
        "❌ Authentication failed. Please verify your security key."
    } else if has(&e, "not found") || has(&e, "no such file") {
        "📁 File or folder not found. Please verify the path."
    } else if has(&e, "permission denied") {
        "🔒 Permission denied. Please check the folder permissions."
    } else if has(&e, "disk space") || has(&e, "no space") {
        "💾 Insufficient disk space. Free up some space and try again."
    } else if has(&e, "decryption") || has(&e, "decrypt") {
        "🔐 Failed to decrypt data. Please verify the encryption key."
    } else if has(&e, "encryption") || has(&e, "encrypt") {
        "🔐 Failed to encrypt data. Please try again."
    } else if has(&e, "backup") && has(&e, "failed") {
        "💾 Backup failed. Please check the destination and try again."
    } else if has(&e, "restore") && has(&e, "failed") {
        "📂 Restore failed. Please verify the snapshot and try again."
    } else if has(&e, "json") || has(&e, "parse") {
        "📄 Failed to process data. Please try reloading the application."
    } else if has(&e, "fido2") || has(&e, "security key") || has(&e, "credential") {
        "🔑 security key error. Please reconnect it or verify the connection."
    } else if has(&e, "recovery") && has(&e, "code") {
        "🔐 Invalid or already used recovery code."
    } else if has(&e, "500") || has(&e, "internal server error") {
        "🖥️ Server error. Please try again in a few moments."
    } else if has(&e, "503") || has(&e, "service unavailable") {
        "🖥️ Service temporarily unavailable. Please try again later."
    } else {
        "❌ An unexpected error occurred. Please try again."
    };
    m.to_string()
}

/// The friendly message for the technical error text `error`: it is put in
/// lower case and matched as `classify_user_error` does. The context names the
/// screen or command the error came from.
pub fn format_user_error(error: &str, context: &str) -> (r: String)
    ensures
        r@ == user_error_message(lowercase(error@)),
{
    let lowered = to_lowercase(error);
    classify_user_error(lowered.as_str())
}

/// `m` with every `"❌ "` removed.
pub open spec fn without_cross(m: Seq<char>) -> Seq<char> {
    replace_all(m, "❌ "@, Seq::empty())
}

/// The message for an error of the operation `op`, given the friendly message:
/// the friendly message is kept when it already names the operation, and is
/// otherwise prefixed with the operation (its `"❌ "` marks removed).
pub open spec fn operation_error_message(friendly: Seq<char>, op: Seq<char>) -> Seq<char> {
    if op == "backup"@ {
        if seq_contains(friendly, "Backup"@) {
            friendly
        } else {
            "💾 Backup error: "@ + without_cross(friendly)
        }
    } else if op == "restore"@ {
        if seq_contains(friendly, "Restore"@) {
            friendly
        } else {
            "📂 Restore error: "@ + without_cross(friendly)
        }
    } else if op == "verify"@ {
        if seq_contains(friendly, "verification"@) {
            friendly
        } else {
            "🔍 Verification error: "@ + without_cross(friendly)
        }
    } else if op == "auth"@ || op == "authentication"@ {
        if seq_contains(friendly, "Authentication"@) {
            friendly
        } else {
            "🔐 Authentication error: "@ + without_cross(friendly)
        }
    } else if op == "fido2"@ {
        if seq_contains(friendly, "security key"@) {
            friendly
        } else {
            "🔑 Security key error: "@ + without_cross(friendly)
        }
    } else {
        friendly
    }
}

fn prefixed(prefix: &str, friendly: &Vec<char>) -> (r: String)
    ensures
        r@ == prefix@ + without_cross(friendly@),
{
    let cross = chars_of("❌ ");
    let empty: Vec<char> = Vec::new();
    proof {
        reveal_strlit("❌ ");
    }
    let stripped = replace_chars(friendly, &cross, &empty);
    assert(empty@ =~= Seq::<char>::empty());
    let mut out = chars_of(prefix);
    crate::text::push_all(&mut out, &stripped);
    string_from_chars(out)
}

/// Adds the context of the operation `operation` to the friendly message `friendly`.
pub fn decorate_operation_error(friendly: &str, operation: &str) -> (r: String)
    ensures
        r@ == operation_error_message(friendly@, operation@),
{
    let f = chars_of(friendly);
    if str_equal(operation, "backup") {
        if has(&f, "Backup") { friendly.to_string() } else { prefixed("💾 Backup error: ", &f) }
    } else if str_equal(operation, "restore") {
        if has(&f, "Restore") { friendly.to_string() } else { prefixed("📂 Restore error: ", &f) }
    } else if str_equal(operation, "verify") {
        if has(&f, "verification") {
            friendly.to_string()
        } else {
            prefixed("🔍 Verification error: ", &f)
        }
    } else if str_equal(operation, "auth") || str_equal(operation, "authentication") {
        if has(&f, "Authentication") {
            friendly.to_string()
        } else {
            prefixed("🔐 Authentication error: ", &f)
        }
    } else if str_equal(operation, "fido2") {
        if has(&f, "security key") {
            friendly.to_string()
        } else {
            prefixed("🔑 Security key error: ", &f)
        }
    } else {
        friendly.to_string()
    }
}

/// The friendly message for `error` with the context of the operation `operation`.
pub fn format_operation_error(error: &str, operation: &str) -> (r: String)
    ensures
        r@ == operation_error_message(user_error_message(lowercase(error@)), operation@),
{
    let friendly = format_user_error(error, operation);
    decorate_operation_error(friendly.as_str(), operation)
}

/// `m` with `p` removed wherever it occurs.
pub open spec fn remove_all(m: Seq<char>, p: Seq<char>) -> Seq<char> {
    replace_all(m, p, Seq::empty())
}

/// `m` without the emoji markers that start friendly messages, removed one
/// marker after the other in this order.
pub open spec fn without_emoji_markers(m: Seq<char>) -> Seq<char> {
    let m1 = remove_all(m, "❌ "@);
    let m2 = remove_all(m1, "🔐 "@);
    let m3 = remove_all(m2, "📁 "@);
    let m4 = remove_all(m3, "⏱️ "@);
    let m5 = remove_all(m4, "💾 "@);
    let m6 = remove_all(m5, "🔒 "@);
    let m7 = remove_all(m6, "📂 "@);
    let m8 = remove_all(m7, "🔑 "@);
    let m9 = remove_all(m8, "📄 "@);
    remove_all(m9, "🖥️ "@)
}

fn remove_marker(m: &Vec<char>, marker: &str) -> (r: Vec<char>)
    requires
        marker@.len() > 0,
    ensures
        r@ == remove_all(m@, marker@),
{
    let p = chars_of(marker);
    let empty: Vec<char> = Vec::new();
    let r = replace_chars(m, &p, &empty);
    assert(empty@ =~= Seq::<char>::empty());
    r
}

/// Removes the emoji markers from a friendly message.
pub fn strip_emoji_markers(message: &str) -> (r: String)
    ensures
        r@ == without_emoji_markers(message@),
{
    proof {
        reveal_strlit("❌ ");
        reveal_strlit("🔐 ");
        reveal_strlit("📁 ");
        reveal_strlit("⏱️ ");
        reveal_strlit("💾 ");
        reveal_strlit("🔒 ");
        reveal_strlit("📂 ");
        reveal_strlit("🔑 ");
        reveal_strlit("📄 ");
        reveal_strlit("🖥️ ");
    }
    let m0 = chars_of(message);
    let m1 = remove_marker(&m0, "❌ ");
    let m2 = remove_marker(&m1, "🔐 ");
    let m3 = remove_marker(&m2, "📁 ");
    let m4 = remove_marker(&m3, "⏱️ ");
    let m5 = remove_marker(&m4, "💾 ");
    let m6 = remove_marker(&m5, "🔒 ");
    let m7 = remove_marker(&m6, "📂 ");
    let m8 = remove_marker(&m7, "🔑 ");
    let m9 = remove_marker(&m8, "📄 ");
    let m10 = remove_marker(&m9, "🖥️ ");
    string_from_chars(m10)
}

/// The friendly message for `error` without its emoji marker.
pub fn get_error_message_only(error: &str, context: &str) -> (r: String)
    ensures
        r@ == without_emoji_markers(user_error_message(lowercase(error@))),
{
    let friendly = format_user_error(error, context);
    strip_emoji_markers(friendly.as_str())
}

/// The emoji markers that start friendly messages, in the order in which
/// they are removed.
pub open spec fn emoji_marker(k: int) -> Seq<char> {
    if k == 0 {
        "❌ "@
    } else if k == 1 {
        "🔐 "@
    } else if k == 2 {
        "📁 "@
    } else if k == 3 {
        "⏱️ "@
    } else if k == 4 {
        "💾 "@
    } else if k == 5 {
        "🔒 "@
    } else if k == 6 {
        "📂 "@
    } else if k == 7 {
        "🔑 "@
    } else if k == 8 {
        "📄 "@
    } else {
        "🖥️ "@
    }
}

/// `s` holds no character equal to `c`.
spec fn free_of(s: Seq<char>, c: char) -> bool {
    forall|i: int| 0 <= i < s.len() ==> #[trigger] s[i] != c
}

proof fn lemma_remove_absent(s: Seq<char>, p: Seq<char>)
    requires
        p.len() > 0,
        free_of(s, p[0]),
    ensures
        remove_all(s, p) == s,
    decreases s.len(),
{
    if s.len() > 0 {
        assert(!seq_starts_with(s, p)) by {
            if seq_starts_with(s, p) {
                assert(s.take(p.len() as int)[0] == p[0]);
            }
        }
        let t = s.skip(1);
        assert(free_of(t, p[0])) by {
            assert forall|i: int| 0 <= i < t.len() implies #[trigger] t[i] != p[0] by {
                assert(t[i] == s[i + 1]);
            }
        }
        lemma_remove_absent(t, p);
        assert(seq![s[0]] + t =~= s);
    }
}

proof fn lemma_remove_lead(p: Seq<char>, rest: Seq<char>)
    requires
        p.len() > 0,
        free_of(rest, p[0]),
    ensures
        remove_all(p + rest, p) == rest,
{
    let m = p + rest;
    assert(m.take(p.len() as int) =~= p);
    assert(m.skip(p.len() as int) =~= rest);
    lemma_remove_absent(rest, p);
    assert(Seq::<char>::empty() + rest =~= rest);
}

/// The first character of every marker is outside ASCII and different from
/// the first character of every other marker, and the others are a space
/// or the emoji presentation selector.
proof fn lemma_markers()
    ensures
        forall|k: int| 0 <= k < 10 ==> (#[trigger] emoji_marker(k)).len() >= 2 && (emoji_marker(
            k,
        )[0] as u32) >= 0x2000,
        forall|k: int, j: int, i: int|
            0 <= k < 10 && 0 <= j < 10 && k != j && 0 <= i < emoji_marker(k).len() ==> #[trigger] emoji_marker(k)[i]
                != #[trigger] emoji_marker(j)[0],
{
    reveal_strlit("❌ ");
    reveal_strlit("🔐 ");
    reveal_strlit("📁 ");
    reveal_strlit("⏱️ ");
    reveal_strlit("💾 ");
    reveal_strlit("🔒 ");
    reveal_strlit("📂 ");
    reveal_strlit("🔑 ");
    reveal_strlit("📄 ");
    reveal_strlit("🖥️ ");
}

/// A message made of the marker `k` and an ASCII text loses exactly its
/// marker when the markers are removed.
proof fn lemma_strip_marker(k: int, rest: Seq<char>)
    requires
        0 <= k < 10,
        forall|i: int| 0 <= i < rest.len() ==> (#[trigger] rest[i] as u32) < 128,
    ensures
        without_emoji_markers(emoji_marker(k) + rest) == rest,
{
    lemma_markers();
    let m = emoji_marker(k) + rest;
    let n = emoji_marker(k).len() as int;
    assert forall|j: int| 0 <= j < 10 implies free_of(rest, #[trigger] emoji_marker(j)[0]) by {
        assert forall|i: int| 0 <= i < rest.len() implies #[trigger] rest[i] != emoji_marker(j)[0] by {
            assert((rest[i] as u32) < 128);
        }
    }
    assert forall|j: int| 0 <= j < 10 && j != k implies free_of(m, #[trigger] emoji_marker(j)[0]) by {
        assert forall|i: int| 0 <= i < m.len() implies #[trigger] m[i] != emoji_marker(j)[0] by {
            if i < n {
                assert(m[i] == emoji_marker(k)[i]);
            } else {
                assert(m[i] == rest[i - n]);
                assert((rest[i - n] as u32) < 128);
            }
        }
    }
    assert forall|j: int| 0 <= j < 10 && j != k implies remove_all(m, #[trigger] emoji_marker(j)) == m by {
        lemma_remove_absent(m, emoji_marker(j));
    }
    assert forall|j: int| 0 <= j < 10 implies remove_all(rest, #[trigger] emoji_marker(j)) == rest by {
        lemma_remove_absent(rest, emoji_marker(j));
    }
    lemma_remove_lead(emoji_marker(k), rest);
    assert(emoji_marker(0) == "❌ "@);
    assert(emoji_marker(1) == "🔐 "@);
    assert(emoji_marker(2) == "📁 "@);
    assert(emoji_marker(3) == "⏱️ "@);
    assert(emoji_marker(4) == "💾 "@);
    assert(emoji_marker(5) == "🔒 "@);
    assert(emoji_marker(6) == "📂 "@);
    assert(emoji_marker(7) == "🔑 "@);
    assert(emoji_marker(8) == "📄 "@);
    assert(emoji_marker(9) == "🖥️ "@);
}

/// A friendly message that starts with the marker `k` and goes on in ASCII
/// loses exactly that marker.
proof fn lemma_message_marker(m: Seq<char>, k: int)
    requires
        0 <= k < 10,
        emoji_marker(k).len() <= m.len(),
        m.take(emoji_marker(k).len() as int) == emoji_marker(k),
        forall|i: int| emoji_marker(k).len() <= i < m.len() ==> (#[trigger] m[i] as u32) < 128,
    ensures
        m == emoji_marker(k) + without_emoji_markers(m),
{
    let n = emoji_marker(k).len() as int;
    let rest = m.skip(n);
    assert(m =~= emoji_marker(k) + rest);
    assert forall|i: int| 0 <= i < rest.len() implies (#[trigger] rest[i] as u32) < 128 by {
        assert(rest[i] == m[i + n]);
    }
    lemma_strip_marker(k, rest);
}

/// The message shown without its marker is the friendly message with only
/// its leading emoji marker (and the space after it) removed.
pub proof fn law_message_only_drops_marker(e: Seq<char>)
    ensures
        exists|k: int|
            0 <= k < 10 && user_error_message(e) == #[trigger] emoji_marker(k) + without_emoji_markers(
                user_error_message(e),
            ),
{
    let k = lemma_marker_of(e);
    assert(user_error_message(e) == emoji_marker(k) + without_emoji_markers(user_error_message(e)));
}

/// Apart from the security-key message, which is in lower case, the message
/// shown without its marker starts with an upper-case letter.
#[verifier::spinoff_prover]
#[verifier::rlimit(40)]
pub proof fn law_message_only_is_capitalized(e: Seq<char>)
    requires
        user_error_message(e) != msg_security_key(),
    ensures
        without_emoji_markers(user_error_message(e)).len() > 0,
        'A' <= without_emoji_markers(user_error_message(e))[0] <= 'Z',
{
    let m = user_error_message(e);
    let k = lemma_marker_of(e);
    let r = without_emoji_markers(m);
    reveal_strlit("❌ ");
    reveal_strlit("🔐 ");
    reveal_strlit("📁 ");
    reveal_strlit("⏱️ ");
    reveal_strlit("💾 ");
    reveal_strlit("🔒 ");
    reveal_strlit("📂 ");
    reveal_strlit("🔑 ");
    reveal_strlit("📄 ");
    reveal_strlit("🖥️ ");
    let n = emoji_marker(k).len() as int;
    if m == msg_connection() {
        reveal_strlit("❌ Connection error. Please check your network and try again.");
    } else if m == msg_timeout() {
        reveal_strlit("⏱️ The operation took too long. Please try again.");
    } else if m == msg_auth_expired() {
        reveal_strlit("🔐 Authentication expired. Please authenticate again.");
    } else if m == msg_auth_failed() {
        reveal_strlit("❌ Authentication failed. Please verify your security key.");
    } else if m == msg_not_found() {
        reveal_strlit("📁 File or folder not found. Please verify the path.");
    } else if m == msg_permission() {
        reveal_strlit("🔒 Permission denied. Please check the folder permissions.");
    } else if m == msg_disk_space() {
        reveal_strlit("💾 Insufficient disk space. Free up some space and try again.");
    } else if m == msg_decrypt() {
        reveal_strlit("🔐 Failed to decrypt data. Please verify the encryption key.");
    } else if m == msg_encrypt() {
        reveal_strlit("🔐 Failed to encrypt data. Please try again.");
    } else if m == msg_backup_failed() {
        reveal_strlit("💾 Backup failed. Please check the destination and try again.");
    } else if m == msg_restore_failed() {
        reveal_strlit("📂 Restore failed. Please verify the snapshot and try again.");
    } else if m == msg_data_format() {
        reveal_strlit("📄 Failed to process data. Please try reloading the application.");
    } else if m == msg_recovery_code() {
        reveal_strlit("🔐 Invalid or already used recovery code.");
    } else if m == msg_server_error() {
        reveal_strlit("🖥️ Server error. Please try again in a few moments.");
    } else if m == msg_unavailable() {
        reveal_strlit("🖥️ Service temporarily unavailable. Please try again later.");
    } else {
        reveal_strlit("❌ An unexpected error occurred. Please try again.");
    }
    assert(m.len() > n);
    assert(r[0] == m[n]);
}

/// The marker that starts the friendly message for `e`, and the proof that
/// the message is that marker followed by what remains once the markers are
/// removed.
proof fn lemma_marker_of(e: Seq<char>) -> (k: int)
    ensures
        0 <= k < 10,
        user_error_message(e) == emoji_marker(k) + without_emoji_markers(user_error_message(e)),
{
    let m = user_error_message(e);
    reveal_strlit("❌ ");
    reveal_strlit("🔐 ");
    reveal_strlit("📁 ");
    reveal_strlit("⏱️ ");
    reveal_strlit("💾 ");
    reveal_strlit("🔒 ");
    reveal_strlit("📂 ");
    reveal_strlit("🔑 ");
    reveal_strlit("📄 ");
    reveal_strlit("🖥️ ");
    let k: int = if m == msg_connection() {
        reveal_strlit("❌ Connection error. Please check your network and try again.");
        0
    } else if m == msg_timeout() {
        reveal_strlit("⏱️ The operation took too long. Please try again.");
        3
    } else if m == msg_auth_expired() {
        reveal_strlit("🔐 Authentication expired. Please authenticate again.");
        1
    } else if m == msg_auth_failed() {
        reveal_strlit("❌ Authentication failed. Please verify your security key.");
        0
    } else if m == msg_not_found() {
        reveal_strlit("📁 File or folder not found. Please verify the path.");
        2
    } else if m == msg_permission() {
        reveal_strlit("🔒 Permission denied. Please check the folder permissions.");
        5
    } else if m == msg_disk_space() {
        reveal_strlit("💾 Insufficient disk space. Free up some space and try again.");
        4
    } else if m == msg_decrypt() {
        reveal_strlit("🔐 Failed to decrypt data. Please verify the encryption key.");
        1
    } else if m == msg_encrypt() {
        reveal_strlit("🔐 Failed to encrypt data. Please try again.");
        1
    } else if m == msg_backup_failed() {
        reveal_strlit("💾 Backup failed. Please check the destination and try again.");
        4
    } else if m == msg_restore_failed() {
        reveal_strlit("📂 Restore failed. Please verify the snapshot and try again.");
        6
    } else if m == msg_data_format() {
        reveal_strlit("📄 Failed to process data. Please try reloading the application.");
        8
    } else if m == msg_security_key() {
        reveal_strlit("🔑 security key error. Please reconnect it or verify the connection.");
        7
    } else if m == msg_recovery_code() {
        reveal_strlit("🔐 Invalid or already used recovery code.");
        1
    } else if m == msg_server_error() {
        reveal_strlit("🖥️ Server error. Please try again in a few moments.");
        9
    } else if m == msg_unavailable() {
        reveal_strlit("🖥️ Service temporarily unavailable. Please try again later.");
        9
    } else {
        reveal_strlit("❌ An unexpected error occurred. Please try again.");
        0
    };
    assert(m.take(emoji_marker(k).len() as int) =~= emoji_marker(k));
    lemma_message_marker(m, k);
    k
}

/// Which friendly message a technical error text gets: the rules are tried
/// in a fixed order, and the first rule one of whose phrases occurs in the
/// lower-cased text (for three rules, both of whose phrases occur) decides;
/// a text that no rule matches gets the unexpected-error message.
pub proof fn law_rules_decide_in_order(e: Seq<char>)
    ensures
        (seq_contains(e, "connection refused"@) || seq_contains(e, "connection reset"@)) ==> user_error_message(e) == msg_connection(),
        (seq_contains(e, "timeout"@)) && !(seq_contains(e, "connection refused"@) || seq_contains(e, "connection reset"@)) ==> user_error_message(e) == msg_timeout(),
        (seq_contains(e, "unauthorized"@) || seq_contains(e, "invalid token"@)) && !(seq_contains(e, "connection refused"@) || seq_contains(e, "connection reset"@)) && !(seq_contains(e, "timeout"@)) ==> user_error_message(e) == msg_auth_expired(),
        (seq_contains(e, "authentication failed"@)) && !(seq_contains(e, "connection refused"@) || seq_contains(e, "connection reset"@)) && !(seq_contains(e, "timeout"@)) && !(seq_contains(e, "unauthorized"@) || seq_contains(e, "invalid token"@)) ==> user_error_message(e) == msg_auth_failed(),
        (seq_contains(e, "not found"@) || seq_contains(e, "no such file"@)) && !(seq_contains(e, "connection refused"@) || seq_contains(e, "connection reset"@)) && !(seq_contains(e, "timeout"@)) && !(seq_contains(e, "unauthorized"@) || seq_contains(e, "invalid token"@)) && !(seq_contains(e, "authentication failed"@)) ==> user_error_message(e) == msg_not_found(),
        (seq_contains(e, "permission denied"@)) && !(seq_contains(e, "connection refused"@) || seq_contains(e, "connection reset"@)) && !(seq_contains(e, "timeout"@)) && !(seq_contains(e, "unauthorized"@) || seq_contains(e, "invalid token"@)) && !(seq_contains(e, "authentication failed"@)) && !(seq_contains(e, "not found"@) || seq_contains(e, "no such file"@)) ==> user_error_message(e) == msg_permission(),
        (seq_contains(e, "disk space"@) || seq_contains(e, "no space"@)) && !(seq_contains(e, "connection refused"@) || seq_contains(e, "connection reset"@)) && !(seq_contains(e, "timeout"@)) && !(seq_contains(e, "unauthorized"@) || seq_contains(e, "invalid token"@)) && !(seq_contains(e, "authentication failed"@)) && !(seq_contains(e, "not found"@) || seq_contains(e, "no such file"@)) && !(seq_contains(e, "permission denied"@)) ==> user_error_message(e) == msg_disk_space(),
        (seq_contains(e, "decryption"@) || seq_contains(e, "decrypt"@)) && !(seq_contains(e, "connection refused"@) || seq_contains(e, "connection reset"@)) && !(seq_contains(e, "timeout"@)) && !(seq_contains(e, "unauthorized"@) || seq_contains(e, "invalid token"@)) && !(seq_contains(e, "authentication failed"@)) && !(seq_contains(e, "not found"@) || seq_contains(e, "no such file"@)) && !(seq_contains(e, "permission denied"@)) && !(seq_contains(e, "disk space"@) || seq_contains(e, "no space"@)) ==> user_error_message(e) == msg_decrypt(),
        (seq_contains(e, "encryption"@) || seq_contains(e, "encrypt"@)) && !(seq_contains(e, "connection refused"@) || seq_contains(e, "connection reset"@)) && !(seq_contains(e, "timeout"@)) && !(seq_contains(e, "unauthorized"@) || seq_contains(e, "invalid token"@)) && !(seq_contains(e, "authentication failed"@)) && !(seq_contains(e, "not found"@) || seq_contains(e, "no such file"@)) && !(seq_contains(e, "permission denied"@)) && !(seq_contains(e, "disk space"@) || seq_contains(e, "no space"@)) && !(seq_contains(e, "decryption"@) || seq_contains(e, "decrypt"@)) ==> user_error_message(e) == msg_encrypt(),
        (seq_contains(e, "backup"@) && seq_contains(e, "failed"@)) && !(seq_contains(e, "connection refused"@) || seq_contains(e, "connection reset"@)) && !(seq_contains(e, "timeout"@)) && !(seq_contains(e, "unauthorized"@) || seq_contains(e, "invalid token"@)) && !(seq_contains(e, "authentication failed"@)) && !(seq_contains(e, "not found"@) || seq_contains(e, "no such file"@)) && !(seq_contains(e, "permission denied"@)) && !(seq_contains(e, "disk space"@) || seq_contains(e, "no space"@)) && !(seq_contains(e, "decryption"@) || seq_contains(e, "decrypt"@)) && !(seq_contains(e, "encryption"@) || seq_contains(e, "encrypt"@)) ==> user_error_message(e) == msg_backup_failed(),
        (seq_contains(e, "restore"@) && seq_contains(e, "failed"@)) && !(seq_contains(e, "connection refused"@) || seq_contains(e, "connection reset"@)) && !(seq_contains(e, "timeout"@)) && !(seq_contains(e, "unauthorized"@) || seq_contains(e, "invalid token"@)) && !(seq_contains(e, "authentication failed"@)) && !(seq_contains(e, "not found"@) || seq_contains(e, "no such file"@)) && !(seq_contains(e, "permission denied"@)) && !(seq_contains(e, "disk space"@) || seq_contains(e, "no space"@)) && !(seq_contains(e, "decryption"@) || seq_contains(e, "decrypt"@)) && !(seq_contains(e, "encryption"@) || seq_contains(e, "encrypt"@)) && !(seq_contains(e, "backup"@) && seq_contains(e, "failed"@)) ==> user_error_message(e) == msg_restore_failed(),
        (seq_contains(e, "json"@) || seq_contains(e, "parse"@)) && !(seq_contains(e, "connection refused"@) || seq_contains(e, "connection reset"@)) && !(seq_contains(e, "timeout"@)) && !(seq_contains(e, "unauthorized"@) || seq_contains(e, "invalid token"@)) && !(seq_contains(e, "authentication failed"@)) && !(seq_contains(e, "not found"@) || seq_contains(e, "no such file"@)) && !(seq_contains(e, "permission denied"@)) && !(seq_contains(e, "disk space"@) || seq_contains(e, "no space"@)) && !(seq_contains(e, "decryption"@) || seq_contains(e, "decrypt"@)) && !(seq_contains(e, "encryption"@) || seq_contains(e, "encrypt"@)) && !(seq_contains(e, "backup"@) && seq_contains(e, "failed"@)) && !(seq_contains(e, "restore"@) && seq_contains(e, "failed"@)) ==> user_error_message(e) == msg_data_format(),
        (seq_contains(e, "fido2"@) || seq_contains(e, "security key"@) || seq_contains(e, "credential"@)) && !(seq_contains(e, "connection refused"@) || seq_contains(e, "connection reset"@)) && !(seq_contains(e, "timeout"@)) && !(seq_contains(e, "unauthorized"@) || seq_contains(e, "invalid token"@)) && !(seq_contains(e, "authentication failed"@)) && !(seq_contains(e, "not found"@) || seq_contains(e, "no such file"@)) && !(seq_contains(e, "permission denied"@)) && !(seq_contains(e, "disk space"@) || seq_contains(e, "no space"@)) && !(seq_contains(e, "decryption"@) || seq_contains(e, "decrypt"@)) && !(seq_contains(e, "encryption"@) || seq_contains(e, "encrypt"@)) && !(seq_contains(e, "backup"@) && seq_contains(e, "failed"@)) && !(seq_contains(e, "restore"@) && seq_contains(e, "failed"@)) && !(seq_contains(e, "json"@) || seq_contains(e, "parse"@)) ==> user_error_message(e) == msg_security_key(),
        (seq_contains(e, "recovery"@) && seq_contains(e, "code"@)) && !(seq_contains(e, "connection refused"@) || seq_contains(e, "connection reset"@)) && !(seq_contains(e, "timeout"@)) && !(seq_contains(e, "unauthorized"@) || seq_contains(e, "invalid token"@)) && !(seq_contains(e, "authentication failed"@)) && !(seq_contains(e, "not found"@) || seq_contains(e, "no such file"@)) && !(seq_contains(e, "permission denied"@)) && !(seq_contains(e, "disk space"@) || seq_contains(e, "no space"@)) && !(seq_contains(e, "decryption"@) || seq_contains(e, "decrypt"@)) && !(seq_contains(e, "encryption"@) || seq_contains(e, "encrypt"@)) && !(seq_contains(e, "backup"@) && seq_contains(e, "failed"@)) && !(seq_contains(e, "restore"@) && seq_contains(e, "failed"@)) && !(seq_contains(e, "json"@) || seq_contains(e, "parse"@)) && !(seq_contains(e, "fido2"@) || seq_contains(e, "security key"@) || seq_contains(e, "credential"@)) ==> user_error_message(e) == msg_recovery_code(),
        (seq_contains(e, "500"@) || seq_contains(e, "internal server error"@)) && !(seq_contains(e, "connection refused"@) || seq_contains(e, "connection reset"@)) && !(seq_contains(e, "timeout"@)) && !(seq_contains(e, "unauthorized"@) || seq_contains(e, "invalid token"@)) && !(seq_contains(e, "authentication failed"@)) && !(seq_contains(e, "not found"@) || seq_contains(e, "no such file"@)) && !(seq_contains(e, "permission denied"@)) && !(seq_contains(e, "disk space"@) || seq_contains(e, "no space"@)) && !(seq_contains(e, "decryption"@) || seq_contains(e, "decrypt"@)) && !(seq_contains(e, "encryption"@) || seq_contains(e, "encrypt"@)) && !(seq_contains(e, "backup"@) && seq_contains(e, "failed"@)) && !(seq_contains(e, "restore"@) && seq_contains(e, "failed"@)) && !(seq_contains(e, "json"@) || seq_contains(e, "parse"@)) && !(seq_contains(e, "fido2"@) || seq_contains(e, "security key"@) || seq_contains(e, "credential"@)) && !(seq_contains(e, "recovery"@) && seq_contains(e, "code"@)) ==> user_error_message(e) == msg_server_error(),
        (seq_contains(e, "503"@) || seq_contains(e, "service unavailable"@)) && !(seq_contains(e, "connection refused"@) || seq_contains(e, "connection reset"@)) && !(seq_contains(e, "timeout"@)) && !(seq_contains(e, "unauthorized"@) || seq_contains(e, "invalid token"@)) && !(seq_contains(e, "authentication failed"@)) && !(seq_contains(e, "not found"@) || seq_contains(e, "no such file"@)) && !(seq_contains(e, "permission denied"@)) && !(seq_contains(e, "disk space"@) || seq_contains(e, "no space"@)) && !(seq_contains(e, "decryption"@) || seq_contains(e, "decrypt"@)) && !(seq_contains(e, "encryption"@) || seq_contains(e, "encrypt"@)) && !(seq_contains(e, "backup"@) && seq_contains(e, "failed"@)) && !(seq_contains(e, "restore"@) && seq_contains(e, "failed"@)) && !(seq_contains(e, "json"@) || seq_contains(e, "parse"@)) && !(seq_contains(e, "fido2"@) || seq_contains(e, "security key"@) || seq_contains(e, "credential"@)) && !(seq_contains(e, "recovery"@) && seq_contains(e, "code"@)) && !(seq_contains(e, "500"@) || seq_contains(e, "internal server error"@)) ==> user_error_message(e) == msg_unavailable(),
        !(seq_contains(e, "connection refused"@) || seq_contains(e, "connection reset"@)) && !(seq_contains(e, "timeout"@)) && !(seq_contains(e, "unauthorized"@) || seq_contains(e, "invalid token"@)) && !(seq_contains(e, "authentication failed"@)) && !(seq_contains(e, "not found"@) || seq_contains(e, "no such file"@)) && !(seq_contains(e, "permission denied"@)) && !(seq_contains(e, "disk space"@) || seq_contains(e, "no space"@)) && !(seq_contains(e, "decryption"@) || seq_contains(e, "decrypt"@)) && !(seq_contains(e, "encryption"@) || seq_contains(e, "encrypt"@)) && !(seq_contains(e, "backup"@) && seq_contains(e, "failed"@)) && !(seq_contains(e, "restore"@) && seq_contains(e, "failed"@)) && !(seq_contains(e, "json"@) || seq_contains(e, "parse"@)) && !(seq_contains(e, "fido2"@) || seq_contains(e, "security key"@) || seq_contains(e, "credential"@)) && !(seq_contains(e, "recovery"@) && seq_contains(e, "code"@)) && !(seq_contains(e, "500"@) || seq_contains(e, "internal server error"@)) && !(seq_contains(e, "503"@) || seq_contains(e, "service unavailable"@)) ==> user_error_message(e) == msg_unexpected(),
{
}

/// Whatever the technical error, the user sees one of the fixed friendly
/// messages and never the technical text itself.
pub proof fn law_user_error_is_from_catalogue(e: Seq<char>)
    ensures
        is_catalogue_message(user_error_message(e)),
{
}

/// An error reported for a backup, restore, verification, authentication or
/// security-key operation always names that operation in the message shown.
pub proof fn law_operation_is_named(friendly: Seq<char>, op: Seq<char>)
    ensures
        op == "backup"@ ==> seq_contains(operation_error_message(friendly, op), "Backup"@),
        op == "restore"@ ==> seq_contains(operation_error_message(friendly, op), "Restore"@),
        op == "verify"@ ==> seq_contains(operation_error_message(friendly, op), "verification"@)
            || seq_contains(operation_error_message(friendly, op), "Verification"@),
        op == "auth"@ || op == "authentication"@ ==> seq_contains(
            operation_error_message(friendly, op),
            "Authentication"@,
        ),
        op == "fido2"@ ==> seq_contains(operation_error_message(friendly, op), "security key"@)
            || seq_contains(operation_error_message(friendly, op), "Security key"@),
{
    reveal_strlit("backup");
    reveal_strlit("restore");
    reveal_strlit("verify");
    reveal_strlit("auth");
    reveal_strlit("authentication");
    reveal_strlit("fido2");
    reveal_strlit("Backup");
    reveal_strlit("Restore");
    reveal_strlit("Verification");
    reveal_strlit("Authentication");
    reveal_strlit("Security key");
    reveal_strlit("💾 Backup error: ");
    reveal_strlit("📂 Restore error: ");
    reveal_strlit("🔍 Verification error: ");
    reveal_strlit("🔐 Authentication error: ");
    reveal_strlit("🔑 Security key error: ");
    assert("restore"@[0] != "backup"@[0]);
    assert("verify"@[0] != "backup"@[0]);
    assert("verify"@[0] != "restore"@[0]);
    assert("auth"@[0] != "backup"@[0] && "auth"@[0] != "restore"@[0] && "auth"@[0] != "verify"@[0]);
    assert("authentication"@[0] != "backup"@[0] && "authentication"@[0] != "restore"@[0]
        && "authentication"@[0] != "verify"@[0]);
    assert("fido2"@[0] != "backup"@[0] && "fido2"@[0] != "restore"@[0] && "fido2"@[0] != "verify"@[0]
        && "fido2"@[0] != "auth"@[0] && "fido2"@[0] != "authentication"@[0]);
    let w = without_cross(friendly);
    assert("💾 Backup error: "@.subrange(2, 2 + "Backup"@.len() as int) =~= "Backup"@);
    assert(occurs_at("💾 Backup error: "@, "Backup"@, 2));
    lemma_contains_prefix("💾 Backup error: "@, w, "Backup"@);
    assert("📂 Restore error: "@.subrange(2, 2 + "Restore"@.len() as int) =~= "Restore"@);
    assert(occurs_at("📂 Restore error: "@, "Restore"@, 2));
    lemma_contains_prefix("📂 Restore error: "@, w, "Restore"@);
    assert("🔍 Verification error: "@.subrange(2, 2 + "Verification"@.len() as int) =~= "Verification"@);
    assert(occurs_at("🔍 Verification error: "@, "Verification"@, 2));
    lemma_contains_prefix("🔍 Verification error: "@, w, "Verification"@);
    assert("🔐 Authentication error: "@.subrange(2, 2 + "Authentication"@.len() as int) =~= "Authentication"@);
    assert(occurs_at("🔐 Authentication error: "@, "Authentication"@, 2));
    lemma_contains_prefix("🔐 Authentication error: "@, w, "Authentication"@);
    assert("🔑 Security key error: "@.subrange(2, 2 + "Security key"@.len() as int) =~= "Security key"@);
    assert(occurs_at("🔑 Security key error: "@, "Security key"@, 2));
    lemma_contains_prefix("🔑 Security key error: "@, w, "Security key"@);
}

} // verus!
