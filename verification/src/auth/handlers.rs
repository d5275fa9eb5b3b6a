//! Request handling of the authentication server: error bodies, request
//! checks, and the device flow through which the command line obtains a token
//! once the user has authenticated in the browser.

use vstd::prelude::*;
use crate::numeric::chars_of;
use crate::text::{ascii_text, ascii_upper, ascii_upper_char, push_all, str_equal, string_from_chars};

verus! {

/// Seconds for which an access token is valid.
pub const EXPIRE_DATE: i64 = 11800;

/// Seconds for which a device flow's codes are valid.
pub const DEVICE_FLOW_EXPIRES_IN: i64 = 900;

/// Seconds the command line waits between two polls for its token.
pub const DEVICE_FLOW_INTERVAL: i64 = 5;

pub const BAD_REQUEST: u16 = 400;
pub const UNAUTHORIZED: u16 = 401;
pub const NOT_FOUND: u16 = 404;
pub const TOO_MANY_REQUESTS: u16 = 429;
pub const INTERNAL_SERVER_ERROR: u16 = 500;

/// The body of an error answer: the status's reason phrase and a message.
pub struct ErrorResponse {
    pub error: String,
    pub message: String,
}

/// The characters of an optional string.
pub open spec fn opt_string_view(s: Option<String>) -> Option<Seq<char>> {
    match s {
        Some(t) => Some(t@),
        None => None,
    }
}

/// Names the reason phrase that `http::StatusCode::canonical_reason` gives for
/// the status `code`, when `code` is a status code and the table has one.
pub uninterp spec fn reason_phrase(code: u16) -> Option<Seq<char>>;

/// Calls `StatusCode::from_u16` and `canonical_reason`; the result is the named
/// value `reason_phrase(code)`, and for the statuses this server answers with
/// it is the phrase that the `http` crate's table lists.
#[verifier::external_body]
pub(crate) fn canonical_reason(code: u16) -> (r: Option<String>)
    ensures
        opt_string_view(r) == reason_phrase(code),
        code == 400 ==> opt_string_view(r) == Some("Bad Request"@),
        code == 401 ==> opt_string_view(r) == Some("Unauthorized"@),
        code == 404 ==> opt_string_view(r) == Some("Not Found"@),
        code == 429 ==> opt_string_view(r) == Some("Too Many Requests"@),
        code == 500 ==> opt_string_view(r) == Some("Internal Server Error"@),
{
    axum::http::StatusCode::from_u16(code).ok().and_then(|s| s.canonical_reason()).map(
        |p| p.to_string(),
    )
}

/// The error kind written in an error body for the status `code`.
pub open spec fn error_kind(code: u16) -> Seq<char> {
    match reason_phrase(code) {
        Some(p) => p,
        None => "Error"@,
    }
}

/// The status and body of an error answer with `message`.
pub fn error_response(status: u16, message: &str) -> (r: (u16, ErrorResponse))
    ensures
        r.0 == status,
        r.1.error@ == error_kind(status),
        r.1.message@ == message@,
{
    let error = match canonical_reason(status) {
        Some(p) => p,
        None => "Error".to_string(),
    };
    (status, ErrorResponse { error, message: message.to_string() })
}

/// The client address recorded for a request: its `x-forwarded-for` header, or
/// the loopback address.
pub fn client_ip(forwarded_for: Option<&str>) -> (r: String)
    ensures
        r@ == (match forwarded_for {
            Some(v) => v@,
            None => "127.0.0.1"@,
        }),
{
    match forwarded_for {
        Some(v) => v.to_string(),
        None => "127.0.0.1".to_string(),
    }
}

/// The client program recorded for a request: its `user-agent` header, or `unknown`.
pub fn client_user_agent(user_agent: Option<&str>) -> (r: String)
    ensures
        r@ == (match user_agent {
            Some(v) => v@,
            None => "unknown"@,
        }),
{
    match user_agent {
        Some(v) => v.to_string(),
        None => "unknown".to_string(),
    }
}

/// Checks the user of an authentication request: it must be named.
pub fn check_user_id(user_id: &str) -> (r: Result<(), (u16, ErrorResponse)>)
    ensures
        user_id@.len() == 0 <==> r is Err,
        r matches Err(e) ==> e.0 == BAD_REQUEST && e.1.error@ == error_kind(BAD_REQUEST)
            && e.1.message@ == "user_id is required"@,
{
    if user_id.is_empty() {
        Err(error_response(BAD_REQUEST, "user_id is required"))
    } else {
        Ok(())
    }
}

/// Checks a request that completes an authentication: the user must be named
/// and the security key's answer must be present; gives that answer.
pub fn check_finish_request(user_id: &str, fido2_response: &Option<String>) -> (r: Result<
    String,
    (u16, ErrorResponse),
>)
    ensures
        user_id@.len() == 0 ==> (r matches Err(e) && e.0 == BAD_REQUEST && e.1.message@
            == "user_id is required"@),
        user_id@.len() > 0 && fido2_response is None ==> (r matches Err(e) && e.0 == BAD_REQUEST
            && e.1.message@ == "fido2_response is required"@),
        user_id@.len() > 0 && fido2_response is Some ==> (r matches Ok(s) && s
            == fido2_response->0),
        r matches Err(e) ==> e.1.error@ == error_kind(BAD_REQUEST),
{
    check_user_id(user_id)?;
    match fido2_response {
        Some(c) => Ok(c.clone()),
        None => Err(error_response(BAD_REQUEST, "fido2_response is required")),
    }
}

/// The state of one device flow.
pub struct DeviceFlowStatus {
    pub user_code: String,
    pub user_id: String,
    pub access_token: Option<String>,
}

/// The answer to the start of a device flow.
pub struct DeviceFlowStartResponse {
    pub device_code: String,
    pub user_code: String,
    pub verification_url: String,
    pub expires_in: i64,
    pub interval: i64,
}

/// A poll for the token of a device flow.
pub struct DeviceFlowTokenRequest {
    pub device_code: String,
}

/// The answer to a poll: the token once granted (`success`), else `pending`.
pub struct DeviceFlowTokenResponse {
    pub access_token: Option<String>,
    pub status: String,
    pub expires_in: Option<i64>,
}

/// The request that starts a device flow for a user.
pub struct DeviceFlowStartRequest {
    pub user_id: String,
}

/// The lookup of a device flow by the code the user typed.
pub struct DeviceFlowLookupRequest {
    pub user_code: String,
}

/// The device flow found for a user code.
pub struct DeviceFlowLookupResponse {
    pub device_code: String,
    pub user_id: String,
}

/// A request for a new access token.
pub struct RefreshTokenRequest {
    pub refresh_token: String,
}

/// A request to end a session.
pub struct LogoutRequest {
    pub access_token: String,
}

/// The state of a device flow as values.
pub struct FlowView {
    pub user_code: Seq<char>,
    pub user_id: Seq<char>,
    pub access_token: Option<Seq<char>>,
}

/// The value of a device flow's state.
pub open spec fn flow_view(s: DeviceFlowStatus) -> FlowView {
    FlowView {
        user_code: s.user_code@,
        user_id: s.user_id@,
        access_token: match s.access_token {
            Some(t) => Some(t@),
            None => None,
        },
    }
}

/// The flows after the token `token` is granted to the flow `device_code`
/// (no change when there is no such flow).
pub open spec fn granted(
    flows: Map<Seq<char>, FlowView>,
    device_code: Seq<char>,
    token: Seq<char>,
) -> Map<Seq<char>, FlowView> {
    if flows.contains_key(device_code) {
        let f = flows[device_code];
        flows.insert(
            device_code,
            FlowView { user_code: f.user_code, user_id: f.user_id, access_token: Some(token) },
        )
    } else {
        flows
    }
}

/// The token that a poll for `device_code` hands out, if one was granted.
pub open spec fn polled_token(flows: Map<Seq<char>, FlowView>, device_code: Seq<char>) -> Option<
    Seq<char>,
> {
    if flows.contains_key(device_code) {
        flows[device_code].access_token
    } else {
        None
    }
}

/// A flow whose user code is `user_code` is in progress.
pub open spec fn has_user_code(flows: Map<Seq<char>, FlowView>, user_code: Seq<char>) -> bool {
    exists|k: Seq<char>| flows.contains_key(k) && flows[k].user_code == user_code
}

/// Names what `str::to_uppercase` returns for `s`: every character mapped to
/// its Unicode uppercase form.
pub uninterp spec fn uppercase(s: Seq<char>) -> Seq<char>;

/// Calls `str::to_uppercase`; the result is the named value `uppercase(s@)`.
/// On ASCII text the Unicode upper case is the ASCII one: `a` to `z` become
/// `A` to `Z` and every other character stays.
#[verifier::external_body]
fn to_uppercase(s: &str) -> (r: String)
    ensures
        r@ == uppercase(s@),
        ascii_text(s@) ==> r@ == ascii_upper(s@),
{
    s.to_uppercase()
}

/// The text of a version-4 UUID as `Uuid::to_string` writes it: 36 characters,
/// hyphens at positions 8, 13, 18 and 23, lowercase hexadecimal digits elsewhere.
pub open spec fn is_hyphenated_uuid(s: Seq<char>) -> bool {
    &&& s.len() == 36
    &&& forall|i: int|
        0 <= i < 36 ==> if i == 8 || i == 13 || i == 18 || i == 23 {
            s[i] == '-'
        } else {
            ('0' <= #[trigger] s[i] <= '9') || ('a' <= s[i] <= 'f')
        }
}

/// A version-4 UUID text: the version digit `4` at position 14, and the
/// variant digit `8`, `9`, `a` or `b` at position 19.
pub open spec fn is_version4_uuid(s: Seq<char>) -> bool {
    &&& s.len() == 36
    &&& s[14] == '4'
    &&& (s[19] == '8' || s[19] == '9' || s[19] == 'a' || s[19] == 'b')
}

/// Calls `Uuid::new_v4` and writes it out; the result is random, and every
/// outcome is a hyphenated lowercase UUID text of version 4.
#[verifier::external_body]
fn new_uuid_text() -> (r: String)
    ensures
        is_hyphenated_uuid(r@),
        is_version4_uuid(r@),
{
    uuid::Uuid::new_v4().to_string()
}

/// A fresh device code: a random UUID text.
pub fn new_device_code() -> (r: String)
    ensures
        is_hyphenated_uuid(r@),
        is_version4_uuid(r@),
{
    new_uuid_text()
}

/// The code shown to the user for the UUID text `uuid_text`: its first six
/// characters in upper case.
pub fn user_code_from(uuid_text: &str) -> (r: String)
    requires
        uuid_text@.len() >= 6,
    ensures
        r@ == uppercase(uuid_text@.take(6)),
        ascii_text(uuid_text@.take(6)) ==> r@ == ascii_upper(uuid_text@.take(6)),
{
    let cs = chars_of(uuid_text);
    let mut first: Vec<char> = Vec::new();
    let mut i: usize = 0;
    while i < 6
        invariant
            cs@ == uuid_text@,
            cs@.len() >= 6,
            i <= 6,
            first@ == cs@.take(i as int),
        decreases 6 - i,
    {
        first.push(cs[i]);
        i = i + 1;
        assert(first@ =~= cs@.take(i as int));
    }
    let head = string_from_chars(first);
    to_uppercase(head.as_str())
}

/// A fresh user code: the first six characters of a random UUID, in upper case.
pub fn new_user_code() -> (r: String)
    ensures
        exists|u: Seq<char>| is_hyphenated_uuid(u) && r@ == uppercase(u.take(6)),
        r@.len() == 6,
        forall|i: int| 0 <= i < 6 ==> is_upper_hex(#[trigger] r@[i]),
{
    let u = new_uuid_text();
    let r = user_code_from(u.as_str());
    assert(is_hyphenated_uuid(u@) && r@ == uppercase(u@.take(6)));
    let ghost head = u@.take(6);
    assert forall|i: int| 0 <= i < 6 implies is_lower_hex(#[trigger] head[i]) by {
        assert(head[i] == u@[i]);
    }
    assert(ascii_text(head));
    assert forall|i: int| 0 <= i < 6 implies is_upper_hex(#[trigger] r@[i]) by {
        assert(r@[i] == ascii_upper_char(head[i]));
        assert(is_lower_hex(head[i]));
    }
    r
}

/// `c` is a digit or a lower-case hexadecimal letter.
pub open spec fn is_lower_hex(c: char) -> bool {
    ('0' <= c && c <= '9') || ('a' <= c && c <= 'f')
}

/// `c` is a digit or an upper-case hexadecimal letter.
pub open spec fn is_upper_hex(c: char) -> bool {
    ('0' <= c && c <= '9') || ('A' <= c && c <= 'F')
}

/// The device flows in progress, by device code.
pub struct DeviceFlows {
    entries: Vec<(String, DeviceFlowStatus)>,
}

impl DeviceFlows {
    /// The flows as a map from device code to state.
    pub closed spec fn view(&self) -> Map<Seq<char>, FlowView> {
        Map::new(
            |k: Seq<char>| exists|i: int| 0 <= i < self.entries@.len() && self.entries@[i].0@ == k,
            |k: Seq<char>|
                {
                    let i = choose|i: int|
                        0 <= i < self.entries@.len() && self.entries@[i].0@ == k;
                    flow_view(self.entries@[i].1)
                },
        )
    }

    /// No device code occurs twice.
    pub closed spec fn wf(&self) -> bool {
        forall|i: int, j: int|
            0 <= i < self.entries@.len() && 0 <= j < self.entries@.len() && i != j
                ==> self.entries@[i].0@ != self.entries@[j].0@
    }

    proof fn lemma_view_at(&self, i: int)
        requires
            self.wf(),
            0 <= i < self.entries@.len(),
        ensures
            self.view().contains_key(self.entries@[i].0@),
            self.view()[self.entries@[i].0@] == flow_view(self.entries@[i].1),
    {
        let k = self.entries@[i].0@;
        assert(exists|j: int| 0 <= j < self.entries@.len() && self.entries@[j].0@ == k);
        let j = choose|j: int| 0 <= j < self.entries@.len() && self.entries@[j].0@ == k;
        assert(i == j);
    }

    /// No flows.
    pub fn new() -> (r: Self)
        ensures
            r.wf(),
            r.view() == Map::<Seq<char>, FlowView>::empty(),
    {
        let r = DeviceFlows { entries: Vec::new() };
        assert(r.view() =~= Map::<Seq<char>, FlowView>::empty());
        r
    }

    /// Starts the flow `device_code` for `user_id`, shown to the user as
    /// `user_code`, and gives the answer that tells the command line where the
    /// user verifies the code.
    pub fn start_flow(&mut self, device_code: String, user_code: String, user_id: String) -> (r:
        DeviceFlowStartResponse)
        requires
            old(self).wf(),
        ensures
            final(self).wf(),
            final(self).view() == old(self).view().insert(
                device_code@,
                FlowView { user_code: user_code@, user_id: user_id@, access_token: None },
            ),
            r.device_code@ == device_code@,
            r.user_code@ == user_code@,
            r.verification_url@ == "http://localhost:3000/auth/device/verify"@,
            r.expires_in == DEVICE_FLOW_EXPIRES_IN,
            r.interval == DEVICE_FLOW_INTERVAL,
    {
        let status = DeviceFlowStatus {
            user_code: user_code.clone(),
            user_id,
            access_token: None,
        };
        let dc = device_code.clone();
        self.insert(device_code, status);
        DeviceFlowStartResponse {
            device_code: dc,
            user_code,
            verification_url: "http://localhost:3000/auth/device/verify".to_string(),
            expires_in: DEVICE_FLOW_EXPIRES_IN,
            interval: DEVICE_FLOW_INTERVAL,
        }
    }

    /// Starts the flow `device_code` for the command-line user (`cli-user`); the
    /// verification address carries the user code.
    pub fn start_cli_flow(&mut self, device_code: String, user_code: String) -> (r:
        DeviceFlowStartResponse)
        requires
            old(self).wf(),
        ensures
            final(self).wf(),
            final(self).view() == old(self).view().insert(
                device_code@,
                FlowView { user_code: user_code@, user_id: "cli-user"@, access_token: None },
            ),
            r.device_code@ == device_code@,
            r.user_code@ == user_code@,
            r.verification_url@ == "http://localhost:3000/auth/device/verify?user_code="@
                + user_code@,
            r.expires_in == DEVICE_FLOW_EXPIRES_IN,
            r.interval == DEVICE_FLOW_INTERVAL,
    {
        let status = DeviceFlowStatus {
            user_code: user_code.clone(),
            user_id: "cli-user".to_string(),
            access_token: None,
        };
        let dc = device_code.clone();
        self.insert(device_code, status);
        let mut url = chars_of("http://localhost:3000/auth/device/verify?user_code=");
        push_all(&mut url, &chars_of(user_code.as_str()));
        DeviceFlowStartResponse {
            device_code: dc,
            user_code,
            verification_url: string_from_chars(url),
            expires_in: DEVICE_FLOW_EXPIRES_IN,
            interval: DEVICE_FLOW_INTERVAL,
        }
    }

    /// Hands the access token `token` to the flow `device_code` once its user
    /// has authenticated; a flow that is not in progress is a bad request.
    pub fn grant_token(&mut self, device_code: &str, token: String) -> (r: Result<
        (),
        (u16, ErrorResponse),
    >)
        requires
            old(self).wf(),
        ensures
            final(self).wf(),
            final(self).view() == granted(old(self).view(), device_code@, token@),
            r is Ok <==> old(self).view().contains_key(device_code@),
            r matches Err(e) ==> e.0 == BAD_REQUEST && e.1.error@ == error_kind(BAD_REQUEST)
                && e.1.message@ == "Invalid device_code or user_id not found."@,
    {
        match self.index_of(device_code) {
            Some(i) => {
                proof {
                    self.lemma_view_at(i as int);
                }
                let key = self.entries[i].0.clone();
                let status = DeviceFlowStatus {
                    user_code: self.entries[i].1.user_code.clone(),
                    user_id: self.entries[i].1.user_id.clone(),
                    access_token: Some(token),
                };
                self.insert(key, status);
                Ok(())
            },
            None => Err(error_response(BAD_REQUEST, "Invalid device_code or user_id not found.")),
        }
    }

    /// Answers a poll of the command line for the token of `device_code`.
    pub fn poll_token(&self, device_code: &str) -> (r: DeviceFlowTokenResponse)
        requires
            self.wf(),
        ensures
            opt_string_view(r.access_token) == polled_token(self.view(), device_code@),
            polled_token(self.view(), device_code@) is Some ==> r.status@ == "success"@
                && r.expires_in == Some(EXPIRE_DATE),
            polled_token(self.view(), device_code@) is None ==> r.status@ == "pending"@
                && r.expires_in is None,
    {
        match self.index_of(device_code) {
            Some(i) => {
                proof {
                    self.lemma_view_at(i as int);
                }
                match &self.entries[i].1.access_token {
                    Some(t) => {
                        return DeviceFlowTokenResponse {
                            access_token: Some(t.clone()),
                            status: "success".to_string(),
                            expires_in: Some(EXPIRE_DATE),
                        };
                    },
                    None => {},
                }
            },
            None => {},
        }
        DeviceFlowTokenResponse {
            access_token: None,
            status: "pending".to_string(),
            expires_in: None,
        }
    }

    /// Finds the flow whose user code is the code the user typed, compared in
    /// upper case.
    pub fn lookup_user_code(&self, user_code: &str) -> (r: Result<
        DeviceFlowLookupResponse,
        (u16, ErrorResponse),
    >)
        requires
            self.wf(),
        ensures
            r is Err <==> !has_user_code(self.view(), uppercase(user_code@)),
            r matches Ok(found) ==> self.view().contains_key(found.device_code@)
                && self.view()[found.device_code@].user_code == uppercase(user_code@)
                && self.view()[found.device_code@].user_id == found.user_id@,
            r matches Err(e) ==> e.0 == NOT_FOUND && e.1.error@ == error_kind(NOT_FOUND)
                && e.1.message@ == "Invalid or expired user code. Please check your terminal."@,
    {
        let wanted = to_uppercase(user_code);
        let mut i: usize = 0;
        while i < self.entries.len()
            invariant
                self.wf(),
                wanted@ == uppercase(user_code@),
                i <= self.entries@.len(),
                forall|k: int| 0 <= k < i ==> self.entries@[k].1.user_code@ != wanted@,
            decreases self.entries@.len() - i,
        {
            if str_equal(self.entries[i].1.user_code.as_str(), wanted.as_str()) {
                proof {
                    self.lemma_view_at(i as int);
                }
                return Ok(
                    DeviceFlowLookupResponse {
                        device_code: self.entries[i].0.clone(),
                        user_id: self.entries[i].1.user_id.clone(),
                    },
                );
            }
            i = i + 1;
        }
        proof {
            assert forall|k: Seq<char>|
                self.view().contains_key(k) implies self.view()[k].user_code != wanted@ by {
                let j = choose|j: int| 0 <= j < self.entries@.len() && self.entries@[j].0@ == k;
                self.lemma_view_at(j);
            }
        }
        Err(error_response(NOT_FOUND, "Invalid or expired user code. Please check your terminal."))
    }

    fn index_of(&self, device_code: &str) -> (r: Option<usize>)
        requires
            self.wf(),
        ensures
            match r {
                Some(i) => i < self.entries@.len() && self.entries@[i as int].0@ == device_code@,
                None => !self.view().contains_key(device_code@),
            },
    {
        let mut i: usize = 0;
        while i < self.entries.len()
            invariant
                i <= self.entries@.len(),
                forall|k: int| 0 <= k < i ==> self.entries@[k].0@ != device_code@,
            decreases self.entries@.len() - i,
        {
            if str_equal(self.entries[i].0.as_str(), device_code) {
                return Some(i);
            }
            i = i + 1;
        }
        None
    }

    /// Records the flow `device_code`, replacing any flow with that code.
    pub fn insert(&mut self, device_code: String, status: DeviceFlowStatus)
        requires
            old(self).wf(),
        ensures
            final(self).wf(),
            final(self).view() == old(self).view().insert(device_code@, flow_view(status)),
    {
        let ghost key = device_code@;
        let ghost fv = flow_view(status);
        let found = self.index_of(device_code.as_str());
        match found {
            Some(i) => {
                self.entries.set(i, (device_code, status));
                proof {
                    assert(self.wf());
                    assert forall|k: Seq<char>|
                        #![auto]
                        self.view().contains_key(k) == old(self).view().insert(
                            key,
                            fv,
                        ).contains_key(k) by {
                        if k == key {
                            self.lemma_view_at(i as int);
                        } else if old(self).view().contains_key(k) {
                            let j = choose|j: int|
                                0 <= j < old(self).entries@.len() && old(self).entries@[j].0@ == k;
                            assert(self.entries@[j].0@ == k);
                        } else if self.view().contains_key(k) {
                            let j = choose|j: int|
                                0 <= j < self.entries@.len() && self.entries@[j].0@ == k;
                            assert(old(self).entries@[j].0@ == k);
                        }
                    }
                    assert forall|k: Seq<char>|
                        #![auto]
                        self.view().contains_key(k) implies self.view()[k] == old(
                            self,
                        ).view().insert(key, fv)[k] by {
                        if k == key {
                            self.lemma_view_at(i as int);
                        } else {
                            let j = choose|j: int|
                                0 <= j < self.entries@.len() && self.entries@[j].0@ == k;
                            self.lemma_view_at(j);
                            old(self).lemma_view_at(j);
                        }
                    }
                    assert(self.view() =~= old(self).view().insert(key, fv));
                }
            },
            None => {
                self.entries.push((device_code, status));
                proof {
                    let n = old(self).entries@.len();
                    assert forall|i: int, j: int|
                        0 <= i < self.entries@.len() && 0 <= j < self.entries@.len() && i != j
                            implies self.entries@[i].0@ != self.entries@[j].0@ by {
                        if i == n {
                            assert(old(self).view().contains_key(old(self).entries@[j].0@));
                        } else if j == n {
                            assert(old(self).view().contains_key(old(self).entries@[i].0@));
                        }
                    }
                    assert forall|k: Seq<char>|
                        #![auto]
                        self.view().contains_key(k) == old(self).view().insert(
                            key,
                            fv,
                        ).contains_key(k) by {
                        if k == key {
                            self.lemma_view_at(n as int);
                        } else if old(self).view().contains_key(k) {
                            let j = choose|j: int|
                                0 <= j < old(self).entries@.len() && old(self).entries@[j].0@ == k;
                            assert(self.entries@[j].0@ == k);
                        } else if self.view().contains_key(k) {
                            let j = choose|j: int|
                                0 <= j < self.entries@.len() && self.entries@[j].0@ == k;
                            assert(old(self).entries@[j].0@ == k);
                        }
                    }
                    assert forall|k: Seq<char>|
                        #![auto]
                        self.view().contains_key(k) implies self.view()[k] == old(
                            self,
                        ).view().insert(key, fv)[k] by {
                        if k == key {
                            self.lemma_view_at(n as int);
                        } else {
                            let j = choose|j: int|
                                0 <= j < self.entries@.len() && self.entries@[j].0@ == k;
                            self.lemma_view_at(j);
                            old(self).lemma_view_at(j);
                        }
                    }
                    assert(self.view() =~= old(self).view().insert(key, fv));
                }
            },
        }
    }
}

/// Once the browser side has granted a token to a flow, the command line's
/// next poll for that flow receives exactly that token.
pub proof fn law_poll_after_grant(
    flows: Map<Seq<char>, FlowView>,
    device_code: Seq<char>,
    token: Seq<char>,
)
    requires
        flows.contains_key(device_code),
    ensures
        polled_token(granted(flows, device_code, token), device_code) == Some(token),
{
}

/// A flow that has just been started has no token yet: polls stay pending.
pub proof fn law_new_flow_is_pending(
    flows: Map<Seq<char>, FlowView>,
    device_code: Seq<char>,
    user_code: Seq<char>,
    user_id: Seq<char>,
)
    ensures
        polled_token(
            flows.insert(
                device_code,
                FlowView { user_code: user_code, user_id: user_id, access_token: None },
            ),
            device_code,
        ) is None,
{
}

/// Granting a token to an unknown device code changes no flow.
pub proof fn law_grant_unknown_changes_nothing(
    flows: Map<Seq<char>, FlowView>,
    device_code: Seq<char>,
    token: Seq<char>,
)
    requires
        !flows.contains_key(device_code),
    ensures
        granted(flows, device_code, token) == flows,
{
}

/// Granting a token to one flow leaves what every other flow's poll returns.
pub proof fn law_grant_is_per_flow(
    flows: Map<Seq<char>, FlowView>,
    device_code: Seq<char>,
    other: Seq<char>,
    token: Seq<char>,
)
    requires
        device_code != other,
    ensures
        polled_token(granted(flows, device_code, token), other) == polled_token(flows, other),
{
}

/// A started flow can be found by its user code until it is replaced.
pub proof fn law_started_flow_is_found(
    flows: Map<Seq<char>, FlowView>,
    device_code: Seq<char>,
    user_code: Seq<char>,
    user_id: Seq<char>,
)
    ensures
        has_user_code(
            flows.insert(
                device_code,
                FlowView { user_code: user_code, user_id: user_id, access_token: None },
            ),
            user_code,
        ),
{
    let m = flows.insert(
        device_code,
        FlowView { user_code: user_code, user_id: user_id, access_token: None },
    );
    assert(m.contains_key(device_code) && m[device_code].user_code == user_code);
}

} // verus!
