use im_core::client::{
    apply_login, apply_refresh, basic_auth_header, build_request, build_stream_request,
    classify_response, classify_stream_status, prepare_refresh, run_request, ApiResult,
    Credentials, HttpMethod, LoginResp, RefreshOutcome, RequestStep, SendOutcome,
    MAX_RETRY_COUNT,
};
use im_core::error::AppError;

fn creds_with(token: &str, refresh: &str) -> Credentials {
    Credentials {
        token: Some(token.to_string()),
        refresh_token: Some(refresh.to_string()),
    }
}

fn env_with_code(code: i64, data: Option<&str>) -> SendOutcome<String> {
    SendOutcome::Envelope(ApiResult {
        code: Some(code),
        success: code == 200,
        msg: None,
        data: data.map(|d| d.to_string()),
    })
}

fn dummy_send() -> SendOutcome<String> {
    SendOutcome::NetworkError("unused".to_string())
}

fn dummy_refresh() -> RefreshOutcome {
    RefreshOutcome::NetworkError("unused".to_string())
}

fn good_refresh(token: &str, refresh: &str) -> RefreshOutcome {
    RefreshOutcome::Envelope {
        success: true,
        msg: None,
        token: Some(token.to_string()),
        refresh_token: Some(refresh.to_string()),
    }
}

#[test]
fn success_returns_payload_and_keeps_credentials() {
    let mut creds = creds_with("tok", "ref");
    let sends = vec![env_with_code(200, Some("payload")), dummy_send(), dummy_send()];
    let (result, sends_used, refreshes_used) =
        run_request(&mut creds, sends, vec![dummy_refresh(), dummy_refresh()]);
    let envelope = result.expect("code 200 must succeed");
    assert_eq!(envelope.data, Some("payload".to_string()));
    assert_eq!(sends_used, 1);
    assert_eq!(refreshes_used, 0);
    assert_eq!(creds, creds_with("tok", "ref"));
}

#[test]
fn expired_once_refresh_fixes_it() {
    let mut creds = creds_with("stale", "ref0");
    let sends = vec![
        env_with_code(406, None),
        env_with_code(200, Some("late payload")),
        dummy_send(),
    ];
    let refreshes = vec![good_refresh("fresh", "ref1"), dummy_refresh()];
    let (result, sends_used, refreshes_used) = run_request(&mut creds, sends, refreshes);
    let envelope = result.expect("refresh then retry must succeed");
    assert_eq!(envelope.data, Some("late payload".to_string()));
    assert_eq!(sends_used, 2);
    assert_eq!(refreshes_used, 1);
    assert_eq!(creds, creds_with("fresh", "ref1"));
}

#[test]
fn expiry_persisting_fails_after_two_refresh_attempts() {
    let mut creds = creds_with("stale", "ref0");
    let sends = vec![
        env_with_code(406, None),
        env_with_code(406, None),
        env_with_code(406, None),
    ];
    let refreshes = vec![good_refresh("t1", "r1"), good_refresh("t2", "r2")];
    let (result, sends_used, refreshes_used) = run_request(&mut creds, sends, refreshes);
    assert_eq!(result.unwrap_err(), AppError::TokenExpired);
    assert_eq!(sends_used, 3);
    assert_eq!(refreshes_used, 2);
}

#[test]
fn unauthorized_fails_immediately_without_refresh() {
    let mut creds = creds_with("tok", "ref");
    let sends = vec![env_with_code(401, None), dummy_send(), dummy_send()];
    let (result, sends_used, refreshes_used) =
        run_request(&mut creds, sends, vec![dummy_refresh(), dummy_refresh()]);
    assert_eq!(result.unwrap_err(), AppError::Unauthorized);
    assert_eq!(sends_used, 1);
    assert_eq!(refreshes_used, 0);
    assert_eq!(creds, creds_with("tok", "ref"));
}

#[test]
fn http_error_is_transport_and_never_decoded() {
    let mut creds = creds_with("tok", "ref");
    let sends = vec![
        SendOutcome::HttpError(500, "Internal Server Error".to_string()),
        dummy_send(),
        dummy_send(),
    ];
    let (result, sends_used, refreshes_used) =
        run_request(&mut creds, sends, vec![dummy_refresh(), dummy_refresh()]);
    assert_eq!(
        result.unwrap_err(),
        AppError::Network("Request failed (HTTP 500): Internal Server Error".to_string())
    );
    assert_eq!(sends_used, 1);
    assert_eq!(refreshes_used, 0);
}

#[test]
fn http_error_body_is_truncated_to_200_chars() {
    let body: String = std::iter::repeat('x').take(250).collect();
    let step = classify_response::<String>(0, SendOutcome::HttpError(502, body));
    match step {
        RequestStep::Done(Err(AppError::Network(msg))) => {
            let expected_tail: String = std::iter::repeat('x').take(200).collect();
            assert_eq!(msg, format!("Request failed (HTTP 502): {}", expected_tail));
        }
        other => panic!("unexpected step: {:?}", other),
    }
}

#[test]
fn missing_refresh_token_is_fatal_configuration_error() {
    let mut creds = Credentials {
        token: Some("tok".to_string()),
        refresh_token: None,
    };
    let sends = vec![env_with_code(406, None), dummy_send(), dummy_send()];
    let (result, sends_used, refreshes_used) =
        run_request(&mut creds, sends, vec![dummy_refresh(), dummy_refresh()]);
    assert_eq!(
        result.unwrap_err(),
        AppError::RefreshFailure("No refresh token available".to_string())
    );
    assert_eq!(sends_used, 1);
    assert_eq!(refreshes_used, 0);
}

#[test]
fn rejected_refresh_propagates_and_keeps_credentials() {
    let mut creds = creds_with("stale", "ref0");
    let sends = vec![env_with_code(406, None), dummy_send(), dummy_send()];
    let refreshes = vec![
        RefreshOutcome::Envelope {
            success: false,
            msg: Some("session revoked".to_string()),
            token: None,
            refresh_token: None,
        },
        dummy_refresh(),
    ];
    let (result, sends_used, refreshes_used) = run_request(&mut creds, sends, refreshes);
    assert_eq!(
        result.unwrap_err(),
        AppError::RefreshFailure("Failed to refresh token: session revoked".to_string())
    );
    assert_eq!(sends_used, 1);
    assert_eq!(refreshes_used, 1);
    assert_eq!(creds, creds_with("stale", "ref0"));
}

#[test]
fn success_flag_returns_payload_whatever_the_code() {
    // the application layer is classified independently: an envelope
    // whose success flag is set returns its payload even when its code
    // is not the 200 sentinel
    let outcome = SendOutcome::Envelope(ApiResult {
        code: None,
        success: true,
        msg: None,
        data: Some("flagged payload".to_string()),
    });
    match classify_response(0, outcome) {
        RequestStep::Done(Ok(envelope)) => {
            assert_eq!(envelope.data, Some("flagged payload".to_string()));
        }
        other => panic!("unexpected step: {:?}", other),
    }

    let mut creds = creds_with("tok", "ref");
    let sends = vec![
        SendOutcome::Envelope(ApiResult {
            code: Some(299),
            success: true,
            msg: None,
            data: Some("d".to_string()),
        }),
        dummy_send(),
        dummy_send(),
    ];
    let (result, sends_used, refreshes_used) =
        run_request(&mut creds, sends, vec![dummy_refresh(), dummy_refresh()]);
    assert_eq!(result.unwrap().data, Some("d".to_string()));
    assert_eq!(sends_used, 1);
    assert_eq!(refreshes_used, 0);
}

#[test]
fn application_error_carries_server_message() {
    let outcome = SendOutcome::Envelope(ApiResult::<String> {
        code: Some(500),
        success: false,
        msg: Some("business rule broken".to_string()),
        data: None,
    });
    match classify_response(0, outcome) {
        RequestStep::Done(Err(AppError::Request(msg))) => {
            assert_eq!(msg, "business rule broken");
        }
        other => panic!("unexpected step: {:?}", other),
    }
}

#[test]
fn refresh_keeps_fields_the_response_omits() {
    let mut creds = creds_with("old_tok", "old_ref");
    let outcome = RefreshOutcome::Envelope {
        success: true,
        msg: None,
        token: Some("new_tok".to_string()),
        refresh_token: None,
    };
    assert!(apply_refresh(&mut creds, outcome).is_ok());
    assert_eq!(creds, creds_with("new_tok", "old_ref"));
}

#[test]
fn retry_budget_is_two() {
    assert_eq!(MAX_RETRY_COUNT, 2);
}

#[test]
fn build_request_injects_credential_and_empty_body() {
    let creds = creds_with("tok", "ref");
    let r = build_request(
        &creds,
        "http://server",
        HttpMethod::Post,
        "im/chat/msg",
        None,
        None,
        None,
    );
    assert_eq!(r.method, HttpMethod::Post);
    assert_eq!(r.url, "http://server/im/chat/msg");
    assert_eq!(r.token_header, Some("tok".to_string()));
    assert_eq!(r.body_json, "{}");
    assert!(r.extra_headers.is_none());
    assert!(r.query.is_none());
}

#[test]
fn build_request_without_credential_and_with_body() {
    let creds = Credentials::new();
    let r = build_request(
        &creds,
        "http://server",
        HttpMethod::Get,
        "path",
        Some("{\"k\":1}".to_string()),
        Some(vec![("pageSize".to_string(), "50".to_string())]),
        None,
    );
    assert_eq!(r.token_header, None);
    assert_eq!(r.body_json, "{\"k\":1}");
    assert_eq!(
        r.query,
        Some(vec![("pageSize".to_string(), "50".to_string())])
    );
}

#[test]
fn stream_request_accepts_event_stream() {
    let creds = creds_with("tok", "ref");
    let r = build_stream_request(&creds, "http://server", HttpMethod::Post, "p", None, None);
    assert_eq!(
        r.extra_headers,
        Some(vec![("Accept".to_string(), "text/event-stream".to_string())])
    );
    assert_eq!(r.token_header, Some("tok".to_string()));
}

#[test]
fn stream_status_classification() {
    assert!(classify_stream_status(200).is_ok());
    assert!(classify_stream_status(204).is_ok());
    assert_eq!(classify_stream_status(406).unwrap_err(), AppError::TokenExpired);
    assert_eq!(classify_stream_status(401).unwrap_err(), AppError::Unauthorized);
    assert_eq!(
        classify_stream_status(500).unwrap_err(),
        AppError::Network("Stream request failed with status 500".to_string())
    );
}

#[test]
fn prepare_refresh_uses_fixed_route_and_no_access_token() {
    let creds = creds_with("tok", "ref");
    let req = prepare_refresh(&creds).expect("token present");
    assert_eq!(req.path, "oauth/anyTenant/refresh");
    assert_eq!(req.refresh_token, "ref");
}

#[test]
fn login_response_sets_both_credentials() {
    let mut creds = Credentials::new();
    let resp = Some(LoginResp {
        token: "t".to_string(),
        refresh_token: "r".to_string(),
    });
    apply_login(&mut creds, &resp);
    assert_eq!(creds, creds_with("t", "r"));
    apply_login(&mut creds, &None);
    assert_eq!(creds, creds_with("t", "r"));
}

#[test]
fn basic_auth_header_is_the_encoded_client_identity() {
    assert_eq!(
        basic_auth_header(),
        "bHVvaHVvX3dlYl9wcm86bHVvaHVvX3dlYl9wcm9fc2VjcmV0"
    );
}
