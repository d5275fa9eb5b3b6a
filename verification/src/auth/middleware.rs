//! Checks made on authenticated requests: the `Authorization: Bearer` header
//! and the session that the token stands for.

use vstd::prelude::*;
use crate::numeric::chars_of;
use crate::text::{seq_starts_with, starts_with_chars, string_from_chars};

verus! {

/// The body of an error answer: a short error kind and a message.
pub struct ErrorResponse {
    pub error: String,
    pub message: String,
}

impl ErrorResponse {
    /// An `Unauthorized` error with `message`.
    pub fn unauthorized(message: &str) -> (r: Self)
        ensures
            r.error@ == "Unauthorized"@,
            r.message@ == message@,
    {
        ErrorResponse { error: "Unauthorized".to_string(), message: message.to_string() }
    }

    /// A `Forbidden` error with `message`.
    pub fn forbidden(message: &str) -> (r: Self)
        ensures
            r.error@ == "Forbidden"@,
            r.message@ == message@,
    {
        ErrorResponse { error: "Forbidden".to_string(), message: message.to_string() }
    }

    /// A `BadRequest` error with `message`.
    pub fn bad_request(message: &str) -> (r: Self)
        ensures
            r.error@ == "BadRequest"@,
            r.message@ == message@,
    {
        ErrorResponse { error: "BadRequest".to_string(), message: message.to_string() }
    }

    /// An `internal_error` error with `message`.
    pub fn internal_error(message: &str) -> (r: Self)
        ensures
            r.error@ == "internal_error"@,
            r.message@ == message@,
    {
        ErrorResponse { error: "internal_error".to_string(), message: message.to_string() }
    }
}

/// The user that an accepted request acts for, with the scopes of its session.
pub struct AuthenticatedUser {
    pub user_id: String,
    pub scopes: Vec<String>,
}

/// HTTP status of an unauthorized request.
pub const UNAUTHORIZED: u16 = 401;

/// HTTP status of a failure of the server itself.
pub const INTERNAL_SERVER_ERROR: u16 = 500;

/// What the `Authorization` header holds: nothing, something that is not a
/// bearer token, or the token after `Bearer `.
pub enum BearerHeader {
    Missing,
    Malformed,
    Token(String),
}

/// The reading of the header value `header`.
pub open spec fn bearer_header(header: Option<Seq<char>>) -> Option<Option<Seq<char>>> {
    match header {
        None => None,
        Some(h) => if seq_starts_with(h, "Bearer "@) {
            Some(Some(h.skip(7)))
        } else {
            Some(None)
        },
    }
}

/// Reads the `Authorization` header value `header` (absent when the request
/// has none, or when it is not visible ASCII).
pub fn parse_bearer_header(header: Option<&str>) -> (r: BearerHeader)
    ensures
        bearer_header(
            match header {
                Some(h) => Some(h@),
                None => None,
            },
        ) == (match r {
            BearerHeader::Missing => None,
            BearerHeader::Malformed => Some(None),
            BearerHeader::Token(t) => Some(Some(t@)),
        }),
{
    match header {
        None => BearerHeader::Missing,
        Some(h) => {
            let cs = chars_of(h);
            let prefix = chars_of("Bearer ");
            proof {
                reveal_strlit("Bearer ");
            }
            if starts_with_chars(&cs, &prefix) {
                let mut tok: Vec<char> = Vec::new();
                let mut i: usize = 7;
                while i < cs.len()
                    invariant
                        7 <= i <= cs@.len(),
                        tok@ == cs@.subrange(7, i as int),
                    decreases cs@.len() - i,
                {
                    tok.push(cs[i]);
                    i = i + 1;
                    assert(tok@ =~= cs@.subrange(7, i as int));
                }
                assert(cs@.subrange(7, cs@.len() as int) =~= cs@.skip(7));
                BearerHeader::Token(string_from_chars(tok))
            } else {
                BearerHeader::Malformed
            }
        },
    }
}

/// The token of a request checked by the request extractor, or the error it
/// is refused with.
pub fn extractor_token(header: &BearerHeader) -> (r: Result<String, ErrorResponse>)
    ensures
        match header {
            BearerHeader::Missing => r matches Err(e) && e.error@ == "Unauthorized"@ && e.message@
                == "Missing Authorization header"@,
            BearerHeader::Malformed => r matches Err(e) && e.error@ == "Unauthorized"@
                && e.message@ == "Invalid format"@,
            BearerHeader::Token(t) => r matches Ok(s) && s@ == t@,
        },
{
    match header {
        BearerHeader::Missing => Err(ErrorResponse::unauthorized("Missing Authorization header")),
        BearerHeader::Malformed => Err(ErrorResponse::unauthorized("Invalid format")),
        BearerHeader::Token(t) => Ok(t.clone()),
    }
}

/// The token of a request checked by the authentication middleware, or the
/// error it is refused with.
pub fn middleware_token(header: &BearerHeader) -> (r: Result<String, (u16, ErrorResponse)>)
    ensures
        match header {
            BearerHeader::Missing => r matches Err(e) && e.0 == UNAUTHORIZED && e.1.error@
                == "Unauthorized"@ && e.1.message@ == "Missing Authorization header"@,
            BearerHeader::Malformed => r matches Err(e) && e.0 == UNAUTHORIZED && e.1.error@
                == "Unauthorized"@ && e.1.message@ == "Invalid Authorization header format"@,
            BearerHeader::Token(t) => r matches Ok(s) && s@ == t@,
        },
{
    match header {
        BearerHeader::Missing => Err(
            (UNAUTHORIZED, ErrorResponse::unauthorized("Missing Authorization header")),
        ),
        BearerHeader::Malformed => Err(
            (UNAUTHORIZED, ErrorResponse::unauthorized("Invalid Authorization header format")),
        ),
        BearerHeader::Token(t) => Ok(t.clone()),
    }
}

/// What the session store answered for a token's session.
pub enum SessionLookup {
    Found { user_id: String, scopes: Vec<String> },
    NotFound,
    StoreError,
}

/// The user of a request checked by the extractor, from the session store's
/// answer: any answer but a found session refuses the request.
pub fn extractor_user(lookup: SessionLookup) -> (r: Result<AuthenticatedUser, ErrorResponse>)
    ensures
        match lookup {
            SessionLookup::Found { user_id, scopes } => r matches Ok(u) && u.user_id == user_id
                && u.scopes == scopes,
            _ => r matches Err(e) && e.error@ == "Unauthorized"@ && e.message@
                == "Session expired or revoked"@,
        },
{
    match lookup {
        SessionLookup::Found { user_id, scopes } => Ok(AuthenticatedUser { user_id, scopes }),
        _ => Err(ErrorResponse::unauthorized("Session expired or revoked")),
    }
}

/// Whether the middleware lets a request with a valid token through, from the
/// session store's answer: a missing session is unauthorized, a store failure
/// is an internal error.
pub fn middleware_session(lookup: &SessionLookup) -> (r: Result<(), (u16, ErrorResponse)>)
    ensures
        match lookup {
            SessionLookup::Found { .. } => r is Ok,
            SessionLookup::NotFound => r matches Err(e) && e.0 == UNAUTHORIZED && e.1.error@
                == "Unauthorized"@ && e.1.message@
                == "Session expired or revoked. Please authenticate again."@,
            SessionLookup::StoreError => r matches Err(e) && e.0 == INTERNAL_SERVER_ERROR
                && e.1.error@ == "internal_error"@ && e.1.message@ == "Failed to verify session"@,
        },
{
    match lookup {
        SessionLookup::Found { .. } => Ok(()),
        SessionLookup::NotFound => Err(
            (
                UNAUTHORIZED,
                ErrorResponse::unauthorized(
                    "Session expired or revoked. Please authenticate again.",
                ),
            ),
        ),
        SessionLookup::StoreError => Err(
            (INTERNAL_SERVER_ERROR, ErrorResponse::internal_error("Failed to verify session")),
        ),
    }
}

/// The security headers added to every answer of the server.
pub open spec fn security_header_list() -> Seq<(Seq<char>, Seq<char>)> {
    seq![
        ("Strict-Transport-Security"@, "max-age=31536000; includeSubDomains; preload"@),
        ("X-Content-Type-Options"@, "nosniff"@),
        ("X-Frame-Options"@, "DENY"@),
        (
            "Content-Security-Policy"@,
            "default-src 'self'; script-src 'self' 'unsafe-inline'; style-src 'self' 'unsafe-inline'; img-src 'self' data:; font-src 'self'; connect-src 'self' http://localhost:3000;"@,
        ),
        ("Referrer-Policy"@, "no-referrer-when-downgrade"@),
    ]
}

/// The security headers added to every answer, in the order they are set.
pub fn security_headers() -> (r: Vec<(&'static str, &'static str)>)
    ensures
        r@.map_values(|h: (&'static str, &'static str)| (h.0@, h.1@)) == security_header_list(),
{
    let mut v: Vec<(&'static str, &'static str)> = Vec::new();
    v.push(("Strict-Transport-Security", "max-age=31536000; includeSubDomains; preload"));
    v.push(("X-Content-Type-Options", "nosniff"));
    v.push(("X-Frame-Options", "DENY"));
    v.push(
        (
            "Content-Security-Policy",
            "default-src 'self'; script-src 'self' 'unsafe-inline'; style-src 'self' 'unsafe-inline'; img-src 'self' data:; font-src 'self'; connect-src 'self' http://localhost:3000;",
        ),
    );
    v.push(("Referrer-Policy", "no-referrer-when-downgrade"));
    assert(v@.map_values(|h: (&'static str, &'static str)| (h.0@, h.1@)) =~= security_header_list());
    v
}

} // verus!
