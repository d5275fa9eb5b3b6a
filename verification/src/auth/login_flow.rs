//! The command line's side of the device-flow login: reading the server's
//! answers while it starts a flow and polls for its token.

use vstd::prelude::*;
use crate::numeric::{chars_of, decimal, push_decimal};
use crate::text::{push_all, string_from_chars};
use super::handlers::{canonical_reason, opt_string_view, reason_phrase};

verus! {

/// Names what the JSON text `body` holds under `key`: nothing when `body` is
/// not JSON, `Some(None)` when it is JSON without a string under `key` (not an
/// object, no such member, or a member that is not a string), else that string.
pub uninterp spec fn json_text_at(body: Seq<char>, key: Seq<char>) -> Option<Option<Seq<char>>>;

/// Parses `body` with `serde_json::from_str` into a `serde_json::Value` and
/// reads the string member `key` with `Value::get`; the result is the named
/// value `json_text_at(body, key)`.
#[verifier::external_body]
fn json_text_field(body: &str, key: &str) -> (r: Option<Option<String>>)
    ensures
        match r {
            None => json_text_at(body@, key@) is None,
            Some(t) => json_text_at(body@, key@) == Some(opt_string_view(t)),
        },
{
    match serde_json::from_str::<serde_json::Value>(body) {
        Ok(v) => match v.get(key) {
            Some(serde_json::Value::String(s)) => Some(Some(s.clone())),
            _ => Some(None),
        },
        Err(_) => None,
    }
}

/// A status in `200..300`.
pub open spec fn is_success(status: u16) -> bool {
    200 <= status < 300
}

/// Why the server's answer to the start of a device flow cannot be used.
pub enum DeviceFlowError {
    /// The server answered with a status that is not a success, and this body.
    ServerError { status: u16, body: String },
    /// The answer is not JSON.
    Unparsable,
    MissingDeviceCode,
    MissingUserCode,
    EmptyCodes,
}

/// The codes of a device flow from the server's answer with `status` and
/// `body`: the device code and the user code, both present and not empty.
pub fn device_flow_codes(status: u16, body: &str) -> (r: Result<(String, String), DeviceFlowError>)
    ensures
        !is_success(status) ==> (r matches Err(DeviceFlowError::ServerError { status: s, body: b })
            && s == status && b@ == body@),
        is_success(status) ==> match json_text_at(body@, "device_code"@) {
            None => r matches Err(DeviceFlowError::Unparsable),
            Some(None) => r matches Err(DeviceFlowError::MissingDeviceCode),
            Some(Some(d)) => match json_text_at(body@, "user_code"@) {
                Some(Some(u)) => if d.len() == 0 || u.len() == 0 {
                    r matches Err(DeviceFlowError::EmptyCodes)
                } else {
                    r matches Ok((dc, uc)) && dc@ == d && uc@ == u
                },
                _ => r matches Err(DeviceFlowError::MissingUserCode),
            },
        },
{
    if status < 200 || status >= 300 {
        return Err(DeviceFlowError::ServerError { status, body: body.to_string() });
    }
    let device_code = match json_text_field(body, "device_code") {
        None => return Err(DeviceFlowError::Unparsable),
        Some(None) => return Err(DeviceFlowError::MissingDeviceCode),
        Some(Some(d)) => d,
    };
    let user_code = match json_text_field(body, "user_code") {
        Some(Some(u)) => u,
        _ => return Err(DeviceFlowError::MissingUserCode),
    };
    if device_code.as_str().unicode_len() == 0 || user_code.as_str().unicode_len() == 0 {
        return Err(DeviceFlowError::EmptyCodes);
    }
    Ok((device_code, user_code))
}

/// The text of a status as `http::StatusCode` displays it: its number and its
/// reason phrase.
pub open spec fn status_text(status: u16) -> Seq<char> {
    decimal(status as nat) + " "@ + match reason_phrase(status) {
        Some(p) => p,
        None => "<unknown status code>"@,
    }
}

/// The message reported when the start of a device flow fails.
pub open spec fn device_flow_error_text(e: DeviceFlowError) -> Seq<char> {
    match e {
        DeviceFlowError::ServerError { status, body } => "Authentication server returned "@
            + status_text(status) + ": "@ + body@,
        DeviceFlowError::Unparsable => "Failed to parse device flow response"@,
        DeviceFlowError::MissingDeviceCode => "Missing device_code in response"@,
        DeviceFlowError::MissingUserCode => "Missing user_code in response"@,
        DeviceFlowError::EmptyCodes => "Invalid device flow response: empty codes"@,
    }
}

/// The message reported when the start of a device flow fails.
pub fn device_flow_error_message(e: &DeviceFlowError) -> (r: String)
    ensures
        r@ == device_flow_error_text(*e),
{
    match e {
        DeviceFlowError::ServerError { status, body } => {
            let mut out = chars_of("Authentication server returned ");
            push_decimal(&mut out, *status as u64);
            push_all(&mut out, &chars_of(" "));
            match canonical_reason(*status) {
                Some(p) => push_all(&mut out, &chars_of(p.as_str())),
                None => push_all(&mut out, &chars_of("<unknown status code>")),
            }
            push_all(&mut out, &chars_of(": "));
            push_all(&mut out, &chars_of(body.as_str()));
            string_from_chars(out)
        },
        DeviceFlowError::Unparsable => "Failed to parse device flow response".to_string(),
        DeviceFlowError::MissingDeviceCode => "Missing device_code in response".to_string(),
        DeviceFlowError::MissingUserCode => "Missing user_code in response".to_string(),
        DeviceFlowError::EmptyCodes => "Invalid device flow response: empty codes".to_string(),
    }
}

/// The token that one poll of the server yields: present when the server
/// answered with a success whose JSON body holds a non-empty `access_token`;
/// otherwise the command line keeps waiting.
pub fn polled_access_token(status: u16, body: &str) -> (r: Option<String>)
    ensures
        match r {
            Some(t) => is_success(status) && json_text_at(body@, "access_token"@) == Some(
                Some(t@),
            ) && t@.len() > 0,
            None => !is_success(status) || !(json_text_at(body@, "access_token"@) matches Some(
                Some(t),
            ) && t.len() > 0),
        },
{
    if status < 200 || status >= 300 {
        return None;
    }
    match json_text_field(body, "access_token") {
        Some(Some(t)) => if t.as_str().unicode_len() > 0 {
            Some(t)
        } else {
            None
        },
        _ => None,
    }
}

/// How many times the command line tries to reach the server before giving up.
pub const READY_ATTEMPTS: u32 = 120;

/// Whether the waiting message is refreshed after the failed attempt
/// `attempt` (counted from 0): after every eighth attempt but the first.
pub fn refresh_wait_message(attempt: u32) -> (r: bool)
    ensures
        r == (attempt % 8 == 0 && attempt > 0),
{
    attempt % 8 == 0 && attempt > 0
}

} // verus!
