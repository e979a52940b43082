//! The authenticated request client's decision core: request
//! construction, response classification, and the bounded
//! token-refresh-and-retry protocol. The surrounding shell performs the
//! HTTP I/O and feeds each observed outcome in; every decision between
//! two awaits is made and verified here.

use vstd::prelude::*;

use crate::error::AppError;
use crate::strutil::{truncate_chars, u64_to_string, spec_decimal};

verus! {

/// The HTTP methods the remote API catalog uses.
#[derive(Debug, Clone, Copy, PartialEq, Eq, Structural)]
pub enum HttpMethod {
    Get,
    Post,
    Put,
    Delete,
}

/// The session credential pair. `token` is the short-lived access
/// credential sent on every authenticated call; `refresh_token` is the
/// long-lived renewal credential. Both start empty and are replaced
/// together by a successful login or refresh.
#[derive(Debug, Clone, PartialEq, Eq)]
pub struct Credentials {
    pub token: Option<String>,
    pub refresh_token: Option<String>,
}

impl Credentials {
    /// Fresh credentials: no session yet.
    pub fn new() -> (r: Credentials)
        ensures
            r.token is None,
            r.refresh_token is None,
    {
        Credentials { token: None, refresh_token: None }
    }
}

/// The envelope every decoded response carries. `code` is the
/// application-level status, classified independently of the HTTP
/// status: a transport-successful response may still carry an
/// application failure.
#[derive(Debug, Clone, PartialEq, Eq)]
pub struct ApiResult<T> {
    pub code: Option<i64>,
    pub success: bool,
    pub msg: Option<String>,
    pub data: Option<T>,
}

/// A fully formed outbound request, ready for the transport: pure
/// construction, no side effects. The credential header comes before
/// any extra headers; the body is an explicit empty JSON object when
/// none was supplied, because the remote contract requires a JSON
/// content type on every call.
#[derive(Debug, Clone)]
pub struct RequestDescriptor {
    pub method: HttpMethod,
    /// `base_url + "/" + path`.
    pub url: String,
    /// Value of the dedicated `token` header, when a credential is set.
    pub token_header: Option<String>,
    /// Extra headers, added after the credential header.
    pub extra_headers: Option<Vec<(String, String)>>,
    /// The serialized JSON body; `{}` when no body was supplied.
    pub body_json: String,
    /// Query parameters, serialized and appended when present.
    pub query: Option<Vec<(String, String)>>,
}

/// Builds the outbound request for one call: target URL, credential
/// header injection, explicit empty JSON body, query parameters.
pub fn build_request(
    creds: &Credentials,
    base_url: &str,
    method: HttpMethod,
    path: &str,
    body: Option<String>,
    params: Option<Vec<(String, String)>>,
    extra_headers: Option<Vec<(String, String)>>,
) -> (r: RequestDescriptor)
    ensures
        r.method == method,
        r.url@ == base_url@ + seq!['/'] + path@,
        match creds.token {
            Some(t) => r.token_header matches Some(h) && h@ == t@,
            None => r.token_header is None,
        },
        r.extra_headers == extra_headers,
        match body {
            Some(b) => r.body_json == b,
            None => r.body_json@ == "{}"@,
        },
        r.query == params,
{
    let mut url = base_url.to_owned();
    url.append("/");
    url.append(path);
    proof {
        reveal_strlit("/");
        assert(url@ =~= base_url@ + seq!['/'] + path@);
    }
    let token_header = match &creds.token {
        Some(t) => Some(t.clone()),
        None => None,
    };
    let body_json = match body {
        Some(b) => b,
        None => String::from_str("{}"),
    };
    RequestDescriptor { method, url, token_header, extra_headers, body_json, query: params }
}

/// Builds the streaming variant of a request: the same construction,
/// with `Accept: text/event-stream` as its one extra header.
pub fn build_stream_request(
    creds: &Credentials,
    base_url: &str,
    method: HttpMethod,
    path: &str,
    body: Option<String>,
    params: Option<Vec<(String, String)>>,
) -> (r: RequestDescriptor)
    ensures
        r.method == method,
        r.url@ == base_url@ + seq!['/'] + path@,
        match creds.token {
            Some(t) => r.token_header matches Some(h) && h@ == t@,
            None => r.token_header is None,
        },
        r.extra_headers matches Some(hs) && hs@.len() == 1 && hs@[0].0@ == "Accept"@
            && hs@[0].1@ == "text/event-stream"@,
        match body {
            Some(b) => r.body_json == b,
            None => r.body_json@ == "{}"@,
        },
        r.query == params,
{
    let mut hs: Vec<(String, String)> = Vec::new();
    hs.push((String::from_str("Accept"), String::from_str("text/event-stream")));
    build_request(creds, base_url, method, path, body, params, Some(hs))
}

/// A streaming call validates only the HTTP-level status and returns the
/// live response to the caller; it deliberately performs no
/// refresh-retry, because an in-flight stream cannot be restarted
/// without caller-visible data loss. Session expiry and missing
/// authorization are surfaced as immediate terminal errors.
pub fn classify_stream_status(status: u16) -> (r: Result<(), AppError>)
    ensures
        r is Ok <==> 200 <= status < 300,
        r matches Err(e) ==> match e {
            AppError::TokenExpired => status == 406,
            AppError::Unauthorized => status == 401,
            AppError::Network(m) => status != 406 && status != 401
                && m@ == "Stream request failed with status "@ + spec_decimal(status as int),
            _ => false,
        },
{
    if 200 <= status && status < 300 {
        Ok(())
    } else if status == 406 {
        Err(AppError::TokenExpired)
    } else if status == 401 {
        Err(AppError::Unauthorized)
    } else {
        let mut msg = String::from_str("Stream request failed with status ");
        let code = u64_to_string(status as u64);
        msg.append(code.as_str());
        Err(AppError::Network(msg))
    }
}

/// The refresh budget: at most this many refresh attempts per logical
/// call; exceeding it is a terminal failure, never a silent success.
pub const MAX_RETRY_COUNT: u8 = 2;

/// What the shell observed from one send of a built request.
#[derive(Debug, Clone)]
pub enum SendOutcome<T> {
    /// The send itself failed (connection reset, timeout, ...). Such
    /// failures propagate immediately; retry on transport errors is a
    /// caller policy, not this layer's.
    NetworkError(String),
    /// The HTTP status was a client or server error (4xx/5xx); the body
    /// text is captured for diagnostics and the envelope is never
    /// decoded.
    HttpError(u16, String),
    /// A transport-successful response whose envelope decoded.
    Envelope(ApiResult<T>),
    /// A transport-successful response whose body failed to decode.
    DecodeError(String),
}

/// What the shell observed from one refresh call.
#[derive(Debug, Clone)]
pub enum RefreshOutcome {
    /// The refresh call itself failed on the network.
    NetworkError(String),
    /// The refresh response failed to decode.
    DecodeError(String),
    /// The decoded refresh envelope: on success the new token pair,
    /// each field independently optional (the server may legitimately
    /// not rotate the refresh token every time).
    Envelope {
        success: bool,
        msg: Option<String>,
        token: Option<String>,
        refresh_token: Option<String>,
    },
}

/// The next move after classifying one send outcome.
#[derive(Debug)]
pub enum RequestStep<T> {
    /// The call is over, successfully or not.
    Done(Result<ApiResult<T>, AppError>),
    /// Session expired within budget: run the refresh protocol, then
    /// rebuild and resend.
    Refresh,
}

/// The message of a transport failure on an HTTP error status: the
/// status code and up to 200 characters of the response body.
pub open spec fn spec_http_error_msg(status: int, body: Seq<char>) -> Seq<char> {
    "Request failed (HTTP "@ + spec_decimal(status) + "): "@
        + body.subrange(0, if body.len() <= 200 { body.len() as int } else { 200int })
}

/// The server-supplied message, or empty when it sent none.
pub open spec fn spec_msg_or_empty(msg: Option<String>) -> Seq<char> {
    match msg {
        Some(m) => m@,
        None => Seq::<char>::empty(),
    }
}

/// Does this outcome signal session expiry (application code 406)? That
/// is the only condition that ever triggers a refresh.
pub open spec fn wants_refresh<T>(o: SendOutcome<T>) -> bool {
    o matches SendOutcome::Envelope(env) && env.code == Some(406i64)
}

/// How a terminally classified outcome maps to the call's result:
/// transport failures and decode failures are transport errors, 401 is
/// `Unauthorized`, 406 beyond the budget is `TokenExpired`, and code
/// 200 returns the envelope. Any other envelope is classified by its
/// success flag — the application layer is judged independently of the
/// HTTP layer — returning the payload when the flag is set and the
/// server's message otherwise.
pub open spec fn terminal_matches<T>(o: SendOutcome<T>, r: Result<ApiResult<T>, AppError>) -> bool {
    match o {
        SendOutcome::NetworkError(m) => r matches Err(AppError::Network(m2)) && m2 == m,
        SendOutcome::HttpError(status, body) => r matches Err(AppError::Network(m2))
            && m2@ == spec_http_error_msg(status as int, body@),
        SendOutcome::DecodeError(m) => r matches Err(AppError::Network(m2)) && m2 == m,
        SendOutcome::Envelope(env) => {
            if env.code == Some(406i64) {
                r matches Err(e) && e is TokenExpired
            } else if env.code == Some(401i64) {
                r matches Err(e) && e is Unauthorized
            } else if env.code == Some(200i64) || env.success {
                r matches Ok(env2) && env2 == env
            } else {
                r matches Err(AppError::Request(m2)) && m2@ == spec_msg_or_empty(env.msg)
            }
        },
    }
}

/// Classifies one send outcome under the current retry count. A refresh
/// is requested exactly for session expiry within the budget; every
/// other outcome is terminal, as `terminal_matches` states.
pub fn classify_response<T>(retry_count: u8, outcome: SendOutcome<T>) -> (r: RequestStep<T>)
    ensures
        r is Refresh <==> (wants_refresh(outcome) && retry_count < MAX_RETRY_COUNT),
        r matches RequestStep::Done(res) ==> terminal_matches(outcome, res),
{
    match outcome {
        SendOutcome::NetworkError(m) => RequestStep::Done(Err(AppError::Network(m))),
        SendOutcome::HttpError(status, body) => {
            let mut msg = String::from_str("Request failed (HTTP ");
            let code = u64_to_string(status as u64);
            msg.append(code.as_str());
            msg.append("): ");
            let snippet = truncate_chars(body.as_str(), 200);
            msg.append(snippet.as_str());
            proof {
                assert(msg@ =~= spec_http_error_msg(status as int, body@));
            }
            RequestStep::Done(Err(AppError::Network(msg)))
        },
        SendOutcome::DecodeError(m) => RequestStep::Done(Err(AppError::Network(m))),
        SendOutcome::Envelope(env) => {
            match env.code {
                Some(406i64) => {
                    if retry_count >= MAX_RETRY_COUNT {
                        RequestStep::Done(Err(AppError::TokenExpired))
                    } else {
                        RequestStep::Refresh
                    }
                },
                Some(401i64) => RequestStep::Done(Err(AppError::Unauthorized)),
                Some(200i64) => RequestStep::Done(Ok(env)),
                _ => {
                    if env.success {
                        RequestStep::Done(Ok(env))
                    } else {
                        let m = match &env.msg {
                            Some(m) => m.clone(),
                            None => String::new(),
                        };
                        RequestStep::Done(Err(AppError::Request(m)))
                    }
                },
            }
        },
    }
}

/// The fixed route of the refresh endpoint.
pub fn refresh_path() -> (r: String)
    ensures
        r@ == "oauth/anyTenant/refresh"@,
{
    String::from_str("oauth/anyTenant/refresh")
}

/// The refresh call to perform. It deliberately carries no access-token
/// header: the server expects only the refresh token, in the body, and
/// the now-invalid access token must not be attached as the refresh
/// call's own credential.
#[derive(Debug, Clone)]
pub struct RefreshRequest {
    /// Route under the base URL, sent as an unauthenticated POST.
    pub path: String,
    /// The refresh token to carry in the body as `refreshToken`.
    pub refresh_token: String,
}

/// Starts the refresh protocol: a missing refresh token is a fatal
/// configuration error, never a retryable one.
pub fn prepare_refresh(creds: &Credentials) -> (r: Result<RefreshRequest, AppError>)
    ensures
        match creds.refresh_token {
            Some(t) => r matches Ok(req) && req.refresh_token@ == t@
                && req.path@ == "oauth/anyTenant/refresh"@,
            None => r matches Err(e) && e matches AppError::RefreshFailure(m)
                && m@ == "No refresh token available"@,
        },
{
    match &creds.refresh_token {
        Some(t) => Ok(RefreshRequest { path: refresh_path(), refresh_token: t.clone() }),
        None => Err(AppError::RefreshFailure(String::from_str("No refresh token available"))),
    }
}

/// Did the refresh call succeed at the application level?
pub open spec fn refresh_success(o: RefreshOutcome) -> bool {
    o matches RefreshOutcome::Envelope { success: true, .. }
}

/// The error a failed refresh propagates: transport failures stay
/// transport errors; an application-level rejection is a
/// `RefreshFailure` carrying the server's message.
pub open spec fn refresh_err_matches(o: RefreshOutcome, e: AppError) -> bool {
    match o {
        RefreshOutcome::NetworkError(m) => e matches AppError::Network(m2) && m2 == m,
        RefreshOutcome::DecodeError(m) => e matches AppError::Network(m2) && m2 == m,
        RefreshOutcome::Envelope { success, msg, .. } => !success
            && (e matches AppError::RefreshFailure(m2)
                && m2@ == "Failed to refresh token: "@ + spec_msg_or_empty(msg)),
    }
}

/// The credential pair after a successful refresh: each field is
/// replaced when the response supplies it and kept otherwise, so the
/// pair is never half-updated to an inconsistent state.
pub open spec fn creds_after_refresh(c: Credentials, o: RefreshOutcome) -> Credentials
    recommends
        refresh_success(o),
{
    Credentials {
        token: if o->token is Some {
            o->token
        } else {
            c.token
        },
        refresh_token: if o->refresh_token is Some {
            o->refresh_token
        } else {
            c.refresh_token
        },
    }
}

/// Finishes the refresh protocol on the observed outcome. On success
/// the token pair is replaced atomically (a field the response omits is
/// kept); on any failure the credentials are left untouched, so a
/// concurrent caller never observes a half-updated credential.
pub fn apply_refresh(creds: &mut Credentials, outcome: RefreshOutcome) -> (r: Result<(), AppError>)
    ensures
        refresh_success(outcome) ==> r is Ok
            && *final(creds) == creds_after_refresh(*old(creds), outcome),
        !refresh_success(outcome) ==> (r matches Err(e) && refresh_err_matches(outcome, e))
            && *final(creds) == *old(creds),
{
    match outcome {
        RefreshOutcome::NetworkError(m) => Err(AppError::Network(m)),
        RefreshOutcome::DecodeError(m) => Err(AppError::Network(m)),
        RefreshOutcome::Envelope { success, msg, token, refresh_token } => {
            if !success {
                let mut m = String::from_str("Failed to refresh token: ");
                match msg {
                    Some(text) => {
                        m.append(text.as_str());
                        proof {
                            assert(m@ =~= "Failed to refresh token: "@ + text@);
                        }
                    },
                    None => {
                        proof {
                            assert(m@ =~= "Failed to refresh token: "@ + Seq::<char>::empty());
                        }
                    },
                }
                Err(AppError::RefreshFailure(m))
            } else {
                if let Some(t) = token {
                    creds.token = Some(t);
                }
                if let Some(rt) = refresh_token {
                    creds.refresh_token = Some(rt);
                }
                Ok(())
            }
        },
    }
}

/// The complete behaviour of one logical call under the
/// refresh-and-retry protocol, as a relation between the observed
/// outcomes and the call's result. `sends` are the outcomes of the
/// successive sends, `refreshes` of the successive refresh calls; at
/// most three sends and two refreshes are ever consumed, which is the
/// retry bound. `sends_used` and `refreshes_used` say how many of each
/// the call actually performed.
pub open spec fn run_post<T>(
    creds0: Credentials,
    sends: Seq<SendOutcome<T>>,
    refreshes: Seq<RefreshOutcome>,
    creds_end: Credentials,
    result: Result<ApiResult<T>, AppError>,
    sends_used: int,
    refreshes_used: int,
) -> bool
    recommends
        sends.len() >= 3,
        refreshes.len() >= 2,
{
    if !wants_refresh(sends[0]) {
        &&& terminal_matches(sends[0], result)
        &&& creds_end == creds0
        &&& sends_used == 1
        &&& refreshes_used == 0
    } else if creds0.refresh_token is None {
        &&& (result matches Err(AppError::RefreshFailure(m))
            && m@ == "No refresh token available"@)
        &&& creds_end == creds0
        &&& sends_used == 1
        &&& refreshes_used == 0
    } else if !refresh_success(refreshes[0]) {
        &&& (result matches Err(e) && refresh_err_matches(refreshes[0], e))
        &&& creds_end == creds0
        &&& sends_used == 1
        &&& refreshes_used == 1
    } else {
        let creds1 = creds_after_refresh(creds0, refreshes[0]);
        if !wants_refresh(sends[1]) {
            &&& terminal_matches(sends[1], result)
            &&& creds_end == creds1
            &&& sends_used == 2
            &&& refreshes_used == 1
        } else if creds1.refresh_token is None {
            &&& (result matches Err(AppError::RefreshFailure(m))
                && m@ == "No refresh token available"@)
            &&& creds_end == creds1
            &&& sends_used == 2
            &&& refreshes_used == 1
        } else if !refresh_success(refreshes[1]) {
            &&& (result matches Err(e) && refresh_err_matches(refreshes[1], e))
            &&& creds_end == creds1
            &&& sends_used == 2
            &&& refreshes_used == 2
        } else {
            let creds2 = creds_after_refresh(creds1, refreshes[1]);
            &&& terminal_matches(sends[2], result)
            &&& creds_end == creds2
            &&& sends_used == 3
            &&& refreshes_used == 2
        }
    }
}

/// Runs one logical call of the refresh-and-retry protocol over the
/// outcomes the transport produced, in order. Used by the shell's
/// request loop in simulated form and by the tests; the shell's live
/// loop takes the same steps one `classify_response` /
/// `prepare_refresh` / `apply_refresh` at a time.
///
/// Returns the call's result together with how many sends and how many
/// refresh attempts were consumed. The protocol is bounded: at most
/// three sends and two refreshes, which is why three send outcomes and
/// two refresh outcomes always suffice.
pub fn run_request<T>(
    creds: &mut Credentials,
    sends: Vec<SendOutcome<T>>,
    refreshes: Vec<RefreshOutcome>,
) -> (r: (Result<ApiResult<T>, AppError>, usize, usize))
    requires
        sends@.len() >= 3,
        refreshes@.len() >= 2,
    ensures
        run_post(*old(creds), sends@, refreshes@, *final(creds), r.0, r.1 as int, r.2 as int),
{
    let ghost sends0 = sends@;
    let ghost refreshes0 = refreshes@;
    let mut sends = sends;
    let mut refreshes = refreshes;

    let out0 = sends.remove(0);
    match classify_response(0, out0) {
        RequestStep::Done(res) => {
            return (res, 1, 0);
        },
        RequestStep::Refresh => {},
    }
    if let Err(e) = prepare_refresh(creds) {
        return (Err(e), 1, 0);
    }
    let r0 = refreshes.remove(0);
    if let Err(e) = apply_refresh(creds, r0) {
        return (Err(e), 1, 1);
    }

    proof {
        assert(sends@[0] == sends0[1]);
        assert(sends@[1] == sends0[2]);
        assert(refreshes@[0] == refreshes0[1]);
    }
    let out1 = sends.remove(0);
    match classify_response(1, out1) {
        RequestStep::Done(res) => {
            return (res, 2, 1);
        },
        RequestStep::Refresh => {},
    }
    if let Err(e) = prepare_refresh(creds) {
        return (Err(e), 2, 1);
    }
    let r1 = refreshes.remove(0);
    if let Err(e) = apply_refresh(creds, r1) {
        return (Err(e), 2, 2);
    }

    proof {
        assert(sends@[0] == sends0[2]);
    }
    let out2 = sends.remove(0);
    match classify_response(2, out2) {
        RequestStep::Done(res) => (res, 3, 2),
        RequestStep::Refresh => unreached(),
    }
}

/// Law: when the response's application code is 200, the call returns
/// the decoded envelope, performs no refresh, and leaves the credential
/// state unchanged.
pub proof fn law_success_returns_payload<T>(
    creds0: Credentials,
    sends: Seq<SendOutcome<T>>,
    refreshes: Seq<RefreshOutcome>,
    creds_end: Credentials,
    result: Result<ApiResult<T>, AppError>,
    sends_used: int,
    refreshes_used: int,
)
    requires
        sends.len() >= 3,
        refreshes.len() >= 2,
        sends[0] matches SendOutcome::Envelope(env) && env.code == Some(200i64),
        run_post(creds0, sends, refreshes, creds_end, result, sends_used, refreshes_used),
    ensures
        result matches Ok(env) && env == sends[0]->Envelope_0,
        creds_end == creds0,
        sends_used == 1,
        refreshes_used == 0,
{
}

/// Law: on session expiry (406), when a refresh token is set and the
/// refresh succeeds, the call succeeds after exactly one retry and the
/// credential state reflects the refreshed token pair.
pub proof fn law_expiry_refresh_retry_succeeds<T>(
    creds0: Credentials,
    sends: Seq<SendOutcome<T>>,
    refreshes: Seq<RefreshOutcome>,
    creds_end: Credentials,
    result: Result<ApiResult<T>, AppError>,
    sends_used: int,
    refreshes_used: int,
)
    requires
        sends.len() >= 3,
        refreshes.len() >= 2,
        sends[0] matches SendOutcome::Envelope(env) && env.code == Some(406i64),
        creds0.refresh_token is Some,
        refresh_success(refreshes[0]),
        sends[1] matches SendOutcome::Envelope(env) && env.code == Some(200i64),
        run_post(creds0, sends, refreshes, creds_end, result, sends_used, refreshes_used),
    ensures
        result matches Ok(env) && env == sends[1]->Envelope_0,
        creds_end == creds_after_refresh(creds0, refreshes[0]),
        sends_used == 2,
        refreshes_used == 1,
{
}

/// Law: when every response keeps signalling session expiry (refresh
/// does not fix it), the call fails terminally with `TokenExpired`
/// after exactly two refresh attempts, not more.
pub proof fn law_expiry_persists_exhausts_budget<T>(
    creds0: Credentials,
    sends: Seq<SendOutcome<T>>,
    refreshes: Seq<RefreshOutcome>,
    creds_end: Credentials,
    result: Result<ApiResult<T>, AppError>,
    sends_used: int,
    refreshes_used: int,
)
    requires
        sends.len() >= 3,
        refreshes.len() >= 2,
        wants_refresh(sends[0]),
        wants_refresh(sends[1]),
        wants_refresh(sends[2]),
        creds0.refresh_token is Some,
        refresh_success(refreshes[0]),
        refresh_success(refreshes[1]),
        run_post(creds0, sends, refreshes, creds_end, result, sends_used, refreshes_used),
    ensures
        result matches Err(e) && e is TokenExpired,
        sends_used == 3,
        refreshes_used == 2,
{
}

/// Law: application code 401 is terminal at once, with zero refresh
/// attempts: the caller must force a fresh login, not a token refresh.
pub proof fn law_unauthorized_is_terminal<T>(
    creds0: Credentials,
    sends: Seq<SendOutcome<T>>,
    refreshes: Seq<RefreshOutcome>,
    creds_end: Credentials,
    result: Result<ApiResult<T>, AppError>,
    sends_used: int,
    refreshes_used: int,
)
    requires
        sends.len() >= 3,
        refreshes.len() >= 2,
        sends[0] matches SendOutcome::Envelope(env) && env.code == Some(401i64),
        run_post(creds0, sends, refreshes, creds_end, result, sends_used, refreshes_used),
    ensures
        result matches Err(e) && e is Unauthorized,
        creds_end == creds0,
        sends_used == 1,
        refreshes_used == 0,
{
}

/// Law: an HTTP error status is classified as a transport failure
/// immediately, with zero refresh attempts. The envelope of such a
/// response is never decoded: the outcome carries only the raw body
/// text, of which at most 200 characters enter the diagnostic message.
pub proof fn law_http_error_is_transport<T>(
    creds0: Credentials,
    sends: Seq<SendOutcome<T>>,
    refreshes: Seq<RefreshOutcome>,
    creds_end: Credentials,
    result: Result<ApiResult<T>, AppError>,
    sends_used: int,
    refreshes_used: int,
)
    requires
        sends.len() >= 3,
        refreshes.len() >= 2,
        sends[0] matches SendOutcome::HttpError(status, body),
        run_post(creds0, sends, refreshes, creds_end, result, sends_used, refreshes_used),
    ensures
        result matches Err(e) && (e matches AppError::Network(m)
            && m@ == spec_http_error_msg(sends[0]->HttpError_0 as int, sends[0]->HttpError_1@)),
        creds_end == creds0,
        sends_used == 1,
        refreshes_used == 0,
{
}

/// The payload of a successful login: the fresh credential pair.
#[derive(Debug, Clone)]
pub struct LoginResp {
    pub token: String,
    pub refresh_token: String,
}

/// The payload of an explicit refresh call made on the caller's behalf.
#[derive(Debug, Clone)]
pub struct RefreshTokenResp {
    pub token: String,
    pub refresh_token: String,
}

/// Applies a login response: a successful login replaces both
/// credentials together; an empty payload changes nothing.
pub fn apply_login(creds: &mut Credentials, resp: &Option<LoginResp>)
    ensures
        resp matches Some(d) ==> (final(creds).token matches Some(t) && t@ == d.token@)
            && (final(creds).refresh_token matches Some(rt) && rt@ == d.refresh_token@),
        resp is None ==> *final(creds) == *old(creds),
{
    if let Some(d) = resp {
        creds.token = Some(d.token.clone());
        creds.refresh_token = Some(d.refresh_token.clone());
    }
}

/// Applies the payload of an explicit refresh call, exactly as a login
/// payload is applied.
pub fn apply_refresh_token_resp(creds: &mut Credentials, resp: &Option<RefreshTokenResp>)
    ensures
        resp matches Some(d) ==> (final(creds).token matches Some(t) && t@ == d.token@)
            && (final(creds).refresh_token matches Some(rt) && rt@ == d.refresh_token@),
        resp is None ==> *final(creds) == *old(creds),
{
    if let Some(d) = resp {
        creds.token = Some(d.token.clone());
        creds.refresh_token = Some(d.refresh_token.clone());
    }
}

/// The base64 rendering of a string's UTF-8 bytes under the standard
/// alphabet with padding: a fixed encoding, a function of the input
/// alone.
pub uninterp spec fn base64_std_of(s: Seq<char>) -> Seq<char>;

/// Relies on base64's `Engine::encode` with the `STANDARD` engine: it
/// encodes the input bytes under the standard alphabet with padding and
/// depends on the input alone.
#[verifier::external_body]
fn encode_base64(s: &str) -> (r: String)
    ensures
        r@ == base64_std_of(s@),
{
    base64::Engine::encode(&base64::prelude::BASE64_STANDARD, s)
}

/// The value of the proxy-level `Authorization` header that every
/// request of this client carries: the fixed client identity, base64
/// encoded.
pub fn basic_auth_header() -> (r: String)
    ensures
        r@ == base64_std_of("luohuo_web_pro:luohuo_web_pro_secret"@),
{
    encode_base64("luohuo_web_pro:luohuo_web_pro_secret")
}

} // verus!
