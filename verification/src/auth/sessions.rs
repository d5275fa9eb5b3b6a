//! The answers of the authentication endpoints: the failures they report,
//! the sessions they open and the tokens they hand out.

use vstd::prelude::*;
use crate::numeric::{chars_of, decimal, push_decimal};
use crate::operations_helpers::opt_view;
use crate::text::string_from_chars;
use crate::text_lines::texts;
use super::handlers::{
    client_ip,
    client_user_agent,
    error_kind,
    error_response,
    granted,
    DeviceFlows,
    ErrorResponse,
    BAD_REQUEST,
    EXPIRE_DATE,
    INTERNAL_SERVER_ERROR,
    NOT_FOUND,
    TOO_MANY_REQUESTS,
    UNAUTHORIZED,
};
use super::middleware::{BearerHeader, SessionLookup};

verus! {

/// The ways an authentication request fails.
#[derive(PartialEq, Eq, Structural, Debug, Clone, Copy)]
pub enum AuthFailure {
    MissingUserId,
    MissingFido2Response,
    InvalidCredentialFormat,
    RateLimited,
    UnknownUser,
    ChallengeFailed,
    AccessTokenFailed,
    SessionFailed,
    UnknownDeviceFlow,
    InvalidCredential,
    InvalidRefreshToken,
    RefreshTokenFailed,
    InvalidToken,
    CallbackUserMissing,
    CallbackTokenFailed,
    MissingAuthorization,
    SessionNotFound,
    SessionCheckFailed,
}

/// The HTTP status of a failure.
pub open spec fn failure_status(f: AuthFailure) -> u16 {
    match f {
        AuthFailure::MissingUserId => BAD_REQUEST,
        AuthFailure::MissingFido2Response => BAD_REQUEST,
        AuthFailure::InvalidCredentialFormat => BAD_REQUEST,
        AuthFailure::RateLimited => TOO_MANY_REQUESTS,
        AuthFailure::UnknownUser => NOT_FOUND,
        AuthFailure::ChallengeFailed => INTERNAL_SERVER_ERROR,
        AuthFailure::AccessTokenFailed => INTERNAL_SERVER_ERROR,
        AuthFailure::SessionFailed => INTERNAL_SERVER_ERROR,
        AuthFailure::UnknownDeviceFlow => BAD_REQUEST,
        AuthFailure::InvalidCredential => UNAUTHORIZED,
        AuthFailure::InvalidRefreshToken => UNAUTHORIZED,
        AuthFailure::RefreshTokenFailed => INTERNAL_SERVER_ERROR,
        AuthFailure::InvalidToken => UNAUTHORIZED,
        AuthFailure::CallbackUserMissing => BAD_REQUEST,
        AuthFailure::CallbackTokenFailed => INTERNAL_SERVER_ERROR,
        AuthFailure::MissingAuthorization => UNAUTHORIZED,
        AuthFailure::SessionNotFound => UNAUTHORIZED,
        AuthFailure::SessionCheckFailed => INTERNAL_SERVER_ERROR,
    }
}

/// The message of a failure.
pub open spec fn failure_message(f: AuthFailure) -> Seq<char> {
    match f {
        AuthFailure::MissingUserId => "user_id is required"@,
        AuthFailure::MissingFido2Response => "fido2_response is required"@,
        AuthFailure::InvalidCredentialFormat => "Invalid credential format"@,
        AuthFailure::RateLimited => "Too many authentication attempts. Please try again later."@,
        AuthFailure::UnknownUser => "User not registered. Please register your FIDO2 key first."@,
        AuthFailure::ChallengeFailed => "Failed to create authentication challenge"@,
        AuthFailure::AccessTokenFailed => "Failed to create access token"@,
        AuthFailure::SessionFailed => "Failed to establish session"@,
        AuthFailure::UnknownDeviceFlow => "Invalid device_code or user_id not found."@,
        AuthFailure::InvalidCredential => "Invalid FIDO2 credential"@,
        AuthFailure::InvalidRefreshToken => "Invalid refresh token"@,
        AuthFailure::RefreshTokenFailed => "Failed to create new access token"@,
        AuthFailure::InvalidToken => "Invalid token"@,
        AuthFailure::CallbackUserMissing => "user_id required"@,
        AuthFailure::CallbackTokenFailed => "Failed to create token"@,
        AuthFailure::MissingAuthorization => "Missing or invalid authorization header"@,
        AuthFailure::SessionNotFound => "Session not found or expired"@,
        AuthFailure::SessionCheckFailed => "Failed to verify session"@,
    }
}

/// The status and body with which a failure is answered.
pub fn failure_response(f: AuthFailure) -> (r: (u16, ErrorResponse))
    ensures
        r.0 == failure_status(f),
        r.1.error@ == error_kind(failure_status(f)),
        r.1.message@ == failure_message(f),
{
    match f {
        AuthFailure::MissingUserId => error_response(BAD_REQUEST, "user_id is required"),
        AuthFailure::MissingFido2Response => error_response(
            BAD_REQUEST,
            "fido2_response is required",
        ),
        AuthFailure::InvalidCredentialFormat => error_response(
            BAD_REQUEST,
            "Invalid credential format",
        ),
        AuthFailure::RateLimited => error_response(
            TOO_MANY_REQUESTS,
            "Too many authentication attempts. Please try again later.",
        ),
        AuthFailure::UnknownUser => error_response(
            NOT_FOUND,
            "User not registered. Please register your FIDO2 key first.",
        ),
        AuthFailure::ChallengeFailed => error_response(
            INTERNAL_SERVER_ERROR,
            "Failed to create authentication challenge",
        ),
        AuthFailure::AccessTokenFailed => error_response(
            INTERNAL_SERVER_ERROR,
            "Failed to create access token",
        ),
        AuthFailure::SessionFailed => error_response(
            INTERNAL_SERVER_ERROR,
            "Failed to establish session",
        ),
        AuthFailure::UnknownDeviceFlow => error_response(
            BAD_REQUEST,
            "Invalid device_code or user_id not found.",
        ),
        AuthFailure::InvalidCredential => error_response(UNAUTHORIZED, "Invalid FIDO2 credential"),
        AuthFailure::InvalidRefreshToken => error_response(UNAUTHORIZED, "Invalid refresh token"),
        AuthFailure::RefreshTokenFailed => error_response(
            INTERNAL_SERVER_ERROR,
            "Failed to create new access token",
        ),
        AuthFailure::InvalidToken => error_response(UNAUTHORIZED, "Invalid token"),
        AuthFailure::CallbackUserMissing => error_response(BAD_REQUEST, "user_id required"),
        AuthFailure::CallbackTokenFailed => error_response(
            INTERNAL_SERVER_ERROR,
            "Failed to create token",
        ),
        AuthFailure::MissingAuthorization => error_response(
            UNAUTHORIZED,
            "Missing or invalid authorization header",
        ),
        AuthFailure::SessionNotFound => error_response(
            UNAUTHORIZED,
            "Session not found or expired",
        ),
        AuthFailure::SessionCheckFailed => error_response(
            INTERNAL_SERVER_ERROR,
            "Failed to verify session",
        ),
    }
}

/// What the security-key manager answered to a request for a challenge.
#[derive(PartialEq, Eq, Structural, Debug, Clone, Copy)]
pub enum ChallengeOutcome {
    Created,
    CredentialNotFound,
    Failed,
}

/// Whether the start of an authentication is answered with the challenge,
/// given whether the rate limiter let the user through and what the
/// security-key manager answered: a limited user is refused before any
/// challenge is asked for.
pub fn start_answer(rate_allowed: bool, challenge: ChallengeOutcome) -> (r: Result<(), AuthFailure>)
    ensures
        r == (if !rate_allowed {
            Err(AuthFailure::RateLimited)
        } else {
            match challenge {
                ChallengeOutcome::Created => Ok(()),
                ChallengeOutcome::CredentialNotFound => Err(AuthFailure::UnknownUser),
                ChallengeOutcome::Failed => Err(AuthFailure::ChallengeFailed),
            }
        }),
{
    if !rate_allowed {
        Err(AuthFailure::RateLimited)
    } else {
        match challenge {
            ChallengeOutcome::Created => Ok(()),
            ChallengeOutcome::CredentialNotFound => Err(AuthFailure::UnknownUser),
            ChallengeOutcome::Failed => Err(AuthFailure::ChallengeFailed),
        }
    }
}

/// A session opened by an authentication, with its times in seconds since the epoch.
pub struct Session {
    pub user_id: String,
    pub jti: String,
    pub created_at: i64,
    pub expires_at: i64,
    pub revoked: bool,
    pub ip_address: Option<String>,
    pub user_agent: Option<String>,
    pub fido2_counter: u32,
    pub scopes: Vec<String>,
}

/// The scopes of every token the server hands out.
pub open spec fn token_scopes_view() -> Seq<Seq<char>> {
    seq!["backup"@, "restore"@]
}

/// The scopes of every token the server hands out: `backup` and `restore`.
pub fn token_scopes() -> (r: Vec<String>)
    ensures
        texts(r@) == token_scopes_view(),
{
    let mut v: Vec<String> = Vec::new();
    v.push("backup".to_string());
    v.push("restore".to_string());
    assert(texts(v@) =~= token_scopes_view());
    v
}

/// The session of the token `jti` of `user_id`, opened at `now` and valid for
/// the lifetime of a token, for the client named by the request's headers.
pub fn new_session(
    user_id: &str,
    jti: &str,
    now: i64,
    forwarded_for: Option<&str>,
    user_agent: Option<&str>,
    fido2_counter: u32,
) -> (r: Session)
    requires
        now <= i64::MAX - EXPIRE_DATE,
    ensures
        r.user_id@ == user_id@,
        r.jti@ == jti@,
        r.created_at == now,
        r.expires_at == now + EXPIRE_DATE,
        !r.revoked,
        opt_view(r.ip_address) == Some(
            match forwarded_for {
                Some(v) => v@,
                None => "127.0.0.1"@,
            },
        ),
        opt_view(r.user_agent) == Some(
            match user_agent {
                Some(v) => v@,
                None => "unknown"@,
            },
        ),
        r.fido2_counter == fido2_counter,
        texts(r.scopes@) == token_scopes_view(),
{
    Session {
        user_id: user_id.to_string(),
        jti: jti.to_string(),
        created_at: now,
        expires_at: now + EXPIRE_DATE,
        revoked: false,
        ip_address: Some(client_ip(forwarded_for)),
        user_agent: Some(client_user_agent(user_agent)),
        fido2_counter,
        scopes: token_scopes(),
    }
}

/// The answer that hands out an access token.
pub struct AuthResponse {
    pub access_token: String,
    pub expires_in: i64,
    pub token_type: String,
    pub user_id: String,
}

/// The answer that hands `token` to `user_id`: a bearer token valid for the
/// lifetime of a token.
pub fn auth_response(token: String, user_id: String) -> (r: AuthResponse)
    ensures
        r.access_token@ == token@,
        r.expires_in == EXPIRE_DATE,
        r.token_type@ == "Bearer"@,
        r.user_id@ == user_id@,
{
    AuthResponse { access_token: token, expires_in: EXPIRE_DATE, token_type: "Bearer".to_string(), user_id }
}

/// The end of a successful authentication once its token is made and its
/// session saved: when the login belongs to the device flow `device_code`,
/// that flow receives the token; a device flow that is not in progress
/// fails the request and leaves the flows as they were.
pub fn finish_with_token(
    flows: &mut DeviceFlows,
    device_code: Option<&str>,
    token: String,
    user_id: String,
) -> (r: Result<AuthResponse, AuthFailure>)
    requires
        old(flows).wf(),
    ensures
        final(flows).wf(),
        match device_code {
            None => final(flows).view() == old(flows).view(),
            Some(d) => final(flows).view() == granted(old(flows).view(), d@, token@),
        },
        match r {
            Ok(resp) => {
                &&& (match device_code {
                    None => true,
                    Some(d) => old(flows).view().contains_key(d@),
                })
                &&& resp.access_token@ == token@
                &&& resp.expires_in == EXPIRE_DATE
                &&& resp.token_type@ == "Bearer"@
                &&& resp.user_id@ == user_id@
            },
            Err(f) => {
                &&& f == AuthFailure::UnknownDeviceFlow
                &&& device_code matches Some(d) && !old(flows).view().contains_key(d@)
            },
        },
{
    match device_code {
        None => Ok(auth_response(token, user_id)),
        Some(d) => {
            let granted_token = token.clone();
            match flows.grant_token(d, granted_token) {
                Ok(()) => Ok(auth_response(token, user_id)),
                Err(_) => Err(AuthFailure::UnknownDeviceFlow),
            }
        },
    }
}

/// The token of a request to the verification endpoint: anything but a
/// bearer token in the `Authorization` header is refused.
pub fn authorization_token(header: &BearerHeader) -> (r: Result<String, AuthFailure>)
    ensures
        match header {
            BearerHeader::Token(t) => r == Ok::<String, AuthFailure>(*t),
            _ => r == Err::<String, AuthFailure>(AuthFailure::MissingAuthorization),
        },
{
    match header {
        BearerHeader::Token(t) => Ok(t.clone()),
        _ => Err(AuthFailure::MissingAuthorization),
    }
}

/// What the verification endpoint reports of a valid token's session: its
/// user and scopes, or why the token is refused.
pub fn session_answer(lookup: SessionLookup) -> (r: Result<(String, Vec<String>), AuthFailure>)
    ensures
        match lookup {
            SessionLookup::Found { user_id, scopes } => r == Ok::<
                (String, Vec<String>),
                AuthFailure,
            >((user_id, scopes)),
            SessionLookup::NotFound => r == Err::<(String, Vec<String>), AuthFailure>(
                AuthFailure::SessionNotFound,
            ),
            SessionLookup::StoreError => r == Err::<(String, Vec<String>), AuthFailure>(
                AuthFailure::SessionCheckFailed,
            ),
        },
{
    match lookup {
        SessionLookup::Found { user_id, scopes } => Ok((user_id, scopes)),
        SessionLookup::NotFound => Err(AuthFailure::SessionNotFound),
        SessionLookup::StoreError => Err(AuthFailure::SessionCheckFailed),
    }
}

/// The address under which the server on `port` is reached by browsers.
pub fn server_origin(port: u16) -> (r: String)
    ensures
        r@ == "http://localhost:"@ + decimal(port as nat),
{
    let mut out = chars_of("http://localhost:");
    push_decimal(&mut out, port as u64);
    string_from_chars(out)
}

/// The address the server on `port` listens on: the loopback interface only.
pub fn bind_address(port: u16) -> (r: String)
    ensures
        r@ == "127.0.0.1:"@ + decimal(port as nat),
{
    let mut out = chars_of("127.0.0.1:");
    push_decimal(&mut out, port as u64);
    string_from_chars(out)
}

} // verus!
