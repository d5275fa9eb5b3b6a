use rs_shield::auth::handlers::{
    check_finish_request, check_user_id, client_ip, client_user_agent, error_response,
    new_device_code, new_user_code, user_code_from, DeviceFlows, BAD_REQUEST, EXPIRE_DATE,
    NOT_FOUND, TOO_MANY_REQUESTS,
};
use rs_shield::auth::middleware::{
    extractor_token, extractor_user, middleware_session, middleware_token, parse_bearer_header,
    BearerHeader, ErrorResponse, SessionLookup,
};

#[test]
fn error_response_constructors() {
    let e = ErrorResponse::unauthorized("a");
    assert_eq!((e.error.as_str(), e.message.as_str()), ("Unauthorized", "a"));
    let e = ErrorResponse::forbidden("b");
    assert_eq!((e.error.as_str(), e.message.as_str()), ("Forbidden", "b"));
    let e = ErrorResponse::bad_request("c");
    assert_eq!((e.error.as_str(), e.message.as_str()), ("BadRequest", "c"));
    let e = ErrorResponse::internal_error("d");
    assert_eq!((e.error.as_str(), e.message.as_str()), ("internal_error", "d"));
}

#[test]
fn bearer_header_reading() {
    assert!(matches!(parse_bearer_header(None), BearerHeader::Missing));
    assert!(matches!(parse_bearer_header(Some("Basic abc")), BearerHeader::Malformed));
    assert!(matches!(parse_bearer_header(Some("bearer abc")), BearerHeader::Malformed));
    match parse_bearer_header(Some("Bearer abc.def")) {
        BearerHeader::Token(t) => assert_eq!(t, "abc.def"),
        _ => panic!("token expected"),
    }
    match parse_bearer_header(Some("Bearer ")) {
        BearerHeader::Token(t) => assert_eq!(t, ""),
        _ => panic!("empty token expected"),
    }
}

#[test]
fn bearer_refusals() {
    let e = extractor_token(&BearerHeader::Missing).err().unwrap();
    assert_eq!(e.message, "Missing Authorization header");
    let e = extractor_token(&BearerHeader::Malformed).err().unwrap();
    assert_eq!(e.message, "Invalid format");
    let (code, e) = middleware_token(&BearerHeader::Malformed).err().unwrap();
    assert_eq!(code, 401);
    assert_eq!(e.message, "Invalid Authorization header format");
    assert_eq!(middleware_token(&BearerHeader::Token("t".to_string())).ok().unwrap(), "t");
}

#[test]
fn session_answers() {
    let user = extractor_user(SessionLookup::Found {
        user_id: "alice".to_string(),
        scopes: vec!["backup".to_string()],
    })
    .ok()
    .unwrap();
    assert_eq!(user.user_id, "alice");
    assert_eq!(user.scopes, vec!["backup".to_string()]);
    let e = extractor_user(SessionLookup::StoreError).err().unwrap();
    assert_eq!(e.message, "Session expired or revoked");
    assert!(middleware_session(&SessionLookup::Found { user_id: String::new(), scopes: vec![] }).is_ok());
    let (code, e) = middleware_session(&SessionLookup::NotFound).err().unwrap();
    assert_eq!(code, 401);
    assert_eq!(e.message, "Session expired or revoked. Please authenticate again.");
    let (code, e) = middleware_session(&SessionLookup::StoreError).err().unwrap();
    assert_eq!(code, 500);
    assert_eq!(e.error, "internal_error");
}

#[test]
fn error_bodies_use_reason_phrases() {
    let (code, e) = error_response(BAD_REQUEST, "user_id is required");
    assert_eq!(code, 400);
    assert_eq!(e.error, "Bad Request");
    assert_eq!(error_response(TOO_MANY_REQUESTS, "x").1.error, "Too Many Requests");
    assert_eq!(error_response(NOT_FOUND, "x").1.error, "Not Found");
    assert_eq!(error_response(418, "x").1.error, "I'm a teapot");
    assert_eq!(error_response(599, "x").1.error, "Error");
    assert_eq!(error_response(42, "x").1.error, "Error");
}

#[test]
fn request_checks() {
    assert!(check_user_id("bob").is_ok());
    let (code, e) = check_user_id("").err().unwrap();
    assert_eq!((code, e.message.as_str()), (400, "user_id is required"));
    let (_, e) = check_finish_request("bob", &None).err().unwrap();
    assert_eq!(e.message, "fido2_response is required");
    assert_eq!(check_finish_request("bob", &Some("{}".to_string())).ok().unwrap(), "{}");
    assert_eq!(client_ip(None), "127.0.0.1");
    assert_eq!(client_ip(Some("10.0.0.1")), "10.0.0.1");
    assert_eq!(client_user_agent(None), "unknown");
    assert_eq!(client_user_agent(Some("curl")), "curl");
}

#[test]
fn codes_have_their_shape() {
    let d = new_device_code();
    assert_eq!(d.len(), 36);
    assert_eq!(d.as_bytes()[14], b'4');
    assert!(matches!(d.as_bytes()[19], b'8' | b'9' | b'a' | b'b'));
    assert_eq!(d.chars().filter(|c| *c == '-').count(), 4);
    let u = new_user_code();
    assert_eq!(u.len(), 6);
    assert!(u.chars().all(|c| c.is_ascii_digit() || ('A'..='F').contains(&c)));
    assert_eq!(user_code_from("ab12cd34-0000-4000-8000-000000000000"), "AB12CD");
}

#[test]
fn device_flow_token_is_handed_out_after_grant() {
    let mut flows = DeviceFlows::new();
    let start = flows.start_flow("dev-1".to_string(), "ABC123".to_string(), "alice".to_string());
    assert_eq!(start.verification_url, "http://localhost:3000/auth/device/verify");
    assert_eq!((start.expires_in, start.interval), (900, 5));
    let pending = flows.poll_token("dev-1");
    assert_eq!(pending.status, "pending");
    assert_eq!(pending.access_token, None);
    assert_eq!(pending.expires_in, None);
    assert!(flows.grant_token("dev-1", "tok".to_string()).is_ok());
    let done = flows.poll_token("dev-1");
    assert_eq!(done.status, "success");
    assert_eq!(done.access_token.as_deref(), Some("tok"));
    assert_eq!(done.expires_in, Some(EXPIRE_DATE));
}

#[test]
fn device_flow_unknown_codes() {
    let mut flows = DeviceFlows::new();
    let (code, e) = flows.grant_token("nope", "tok".to_string()).err().unwrap();
    assert_eq!(code, 400);
    assert_eq!(e.message, "Invalid device_code or user_id not found.");
    assert_eq!(flows.poll_token("nope").status, "pending");
    let (code, e) = flows.lookup_user_code("ABC123").err().unwrap();
    assert_eq!(code, 404);
    assert_eq!(e.error, "Not Found");
}

#[test]
fn device_flow_lookup_is_case_insensitive() {
    let mut flows = DeviceFlows::new();
    flows.start_flow("dev-1".to_string(), "ABC123".to_string(), "alice".to_string());
    let cli = flows.start_cli_flow("dev-2".to_string(), "FED987".to_string());
    assert_eq!(cli.verification_url, "http://localhost:3000/auth/device/verify?user_code=FED987");
    let found = flows.lookup_user_code("abc123").ok().unwrap();
    assert_eq!((found.device_code.as_str(), found.user_id.as_str()), ("dev-1", "alice"));
    let found = flows.lookup_user_code("FED987").ok().unwrap();
    assert_eq!((found.device_code.as_str(), found.user_id.as_str()), ("dev-2", "cli-user"));
}

#[test]
fn device_flow_restart_replaces_flow() {
    let mut flows = DeviceFlows::new();
    flows.start_flow("dev-1".to_string(), "AAAAAA".to_string(), "alice".to_string());
    flows.grant_token("dev-1", "tok".to_string()).ok().unwrap();
    flows.start_flow("dev-1".to_string(), "BBBBBB".to_string(), "bob".to_string());
    assert_eq!(flows.poll_token("dev-1").status, "pending");
    assert!(flows.lookup_user_code("AAAAAA").is_err());
    assert_eq!(flows.lookup_user_code("bbbbbb").ok().unwrap().user_id, "bob");
}
