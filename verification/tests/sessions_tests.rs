use rs_shield::auth::handlers::DeviceFlows;
use rs_shield::auth::login_flow::{
    device_flow_codes, device_flow_error_message, polled_access_token, refresh_wait_message,
    DeviceFlowError,
};
use rs_shield::auth::middleware::{parse_bearer_header, SessionLookup};
use rs_shield::auth::sessions::{
    auth_response, authorization_token, failure_response, finish_with_token, new_session,
    session_answer, start_answer, token_scopes, AuthFailure, ChallengeOutcome,
};

#[test]
fn failures_have_status_and_message() {
    let (s, body) = failure_response(AuthFailure::RateLimited);
    assert_eq!(s, 429);
    assert_eq!(body.error, "Too Many Requests");
    assert_eq!(body.message, "Too many authentication attempts. Please try again later.");
    let (s, body) = failure_response(AuthFailure::UnknownUser);
    assert_eq!((s, body.error.as_str()), (404, "Not Found"));
    assert_eq!(body.message, "User not registered. Please register your FIDO2 key first.");
    let (s, body) = failure_response(AuthFailure::SessionCheckFailed);
    assert_eq!((s, body.error.as_str(), body.message.as_str()), (500, "Internal Server Error", "Failed to verify session"));
    assert_eq!(failure_response(AuthFailure::InvalidCredential).0, 401);
    assert_eq!(failure_response(AuthFailure::CallbackUserMissing).1.message, "user_id required");
}

#[test]
fn start_answers() {
    assert_eq!(start_answer(false, ChallengeOutcome::Created), Err(AuthFailure::RateLimited));
    assert_eq!(start_answer(true, ChallengeOutcome::Created), Ok(()));
    assert_eq!(start_answer(true, ChallengeOutcome::CredentialNotFound), Err(AuthFailure::UnknownUser));
    assert_eq!(start_answer(true, ChallengeOutcome::Failed), Err(AuthFailure::ChallengeFailed));
}

#[test]
fn sessions_and_responses() {
    let s = new_session("ana", "jti-1", 1000, None, Some("curl"), 7);
    assert_eq!(s.expires_at, 1000 + 11800);
    assert_eq!(s.ip_address, Some("127.0.0.1".to_string()));
    assert_eq!(s.user_agent, Some("curl".to_string()));
    assert_eq!(s.scopes, vec!["backup", "restore"]);
    assert!(!s.revoked);
    assert_eq!(token_scopes(), vec!["backup", "restore"]);
    let r = auth_response("tok".to_string(), "ana".to_string());
    assert_eq!((r.expires_in, r.token_type.as_str()), (11800, "Bearer"));
}

#[test]
fn finish_updates_device_flow() {
    let mut flows = DeviceFlows::new();
    flows.start_flow("dev1".to_string(), "ABC123".to_string(), "ana".to_string());
    assert!(finish_with_token(&mut flows, None, "t0".to_string(), "ana".to_string()).is_ok());
    assert_eq!(flows.poll_token("dev1").access_token, None);
    let bad = finish_with_token(&mut flows, Some("nope"), "t1".to_string(), "ana".to_string());
    assert_eq!(bad.err(), Some(AuthFailure::UnknownDeviceFlow));
    let ok = finish_with_token(&mut flows, Some("dev1"), "t2".to_string(), "ana".to_string());
    assert_eq!(ok.ok().unwrap().access_token, "t2");
    assert_eq!(flows.poll_token("dev1").access_token, Some("t2".to_string()));
}

#[test]
fn verify_endpoint_answers() {
    assert_eq!(authorization_token(&parse_bearer_header(Some("Bearer abc"))), Ok("abc".to_string()));
    assert_eq!(authorization_token(&parse_bearer_header(Some("Basic x"))), Err(AuthFailure::MissingAuthorization));
    assert_eq!(authorization_token(&parse_bearer_header(None)), Err(AuthFailure::MissingAuthorization));
    assert_eq!(session_answer(SessionLookup::NotFound), Err(AuthFailure::SessionNotFound));
    assert_eq!(session_answer(SessionLookup::StoreError), Err(AuthFailure::SessionCheckFailed));
    let found = session_answer(SessionLookup::Found { user_id: "u".to_string(), scopes: vec!["backup".to_string()] });
    assert_eq!(found, Ok(("u".to_string(), vec!["backup".to_string()])));
}

#[test]
fn device_flow_answers_are_read() {
    let ok = device_flow_codes(200, r#"{"device_code":"d1","user_code":"U1","expires_in":900}"#);
    assert_eq!(ok.ok(), Some(("d1".to_string(), "U1".to_string())));
    match device_flow_codes(500, "oops") {
        Err(e @ DeviceFlowError::ServerError { .. }) => {
            assert_eq!(device_flow_error_message(&e), "Authentication server returned 500 Internal Server Error: oops")
        }
        _ => panic!("expected a server error"),
    }
    assert!(matches!(device_flow_codes(200, "not json"), Err(DeviceFlowError::Unparsable)));
    assert!(matches!(device_flow_codes(200, r#"{"user_code":"U"}"#), Err(DeviceFlowError::MissingDeviceCode)));
    assert!(matches!(device_flow_codes(200, r#"{"device_code":5}"#), Err(DeviceFlowError::MissingDeviceCode)));
    assert!(matches!(device_flow_codes(200, r#"{"device_code":"d"}"#), Err(DeviceFlowError::MissingUserCode)));
    assert!(matches!(device_flow_codes(201, r#"{"device_code":"","user_code":"U"}"#), Err(DeviceFlowError::EmptyCodes)));
    assert_eq!(device_flow_error_message(&DeviceFlowError::EmptyCodes), "Invalid device flow response: empty codes");
}

#[test]
fn polling_reads_the_token() {
    assert_eq!(polled_access_token(200, r#"{"access_token":"tok","status":"success"}"#), Some("tok".to_string()));
    assert_eq!(polled_access_token(200, r#"{"access_token":null,"status":"pending"}"#), None);
    assert_eq!(polled_access_token(200, r#"{"access_token":""}"#), None);
    assert_eq!(polled_access_token(404, r#"{"access_token":"tok"}"#), None);
    assert!(!refresh_wait_message(0));
    assert!(refresh_wait_message(8));
    assert!(!refresh_wait_message(9));
}
