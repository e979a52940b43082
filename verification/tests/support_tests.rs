use im_core::client::HttpMethod;
use im_core::config::AppConfig;
use im_core::error::{error_chain_fmt, io_error, AppError};
use im_core::logfmt::{find_sep_from, format_logs, truncate_log, LogEntry};
use im_core::strutil::{
    find_char, starts_with, str_eq, trim_end_char, truncate_chars, u64_to_string,
};
use im_core::urls::ImUrl;

#[test]
fn io_error_prefixes_the_message() {
    assert_eq!(io_error("disk on fire"), "IO error: disk on fire");
}

#[test]
fn error_chain_renders_each_cause() {
    let causes = vec!["root cause".to_string(), "deeper cause".to_string()];
    assert_eq!(
        error_chain_fmt("boom", &causes),
        "boom\n\nCaused by:\n\troot cause\nCaused by:\n\tdeeper cause\n"
    );
    assert_eq!(error_chain_fmt("lonely", &vec![]), "lonely\n\n");
}

#[test]
fn error_messages_render_by_kind() {
    assert_eq!(AppError::Io("x".to_string()).message(), "IO error: x");
    assert_eq!(AppError::Network("y".to_string()).message(), "Network error: y");
    assert_eq!(AppError::InvalidUri("u".to_string()).message(), "Invalid URI: u");
    assert_eq!(AppError::FileTooLarge("f".to_string()).message(), "File too large: f");
    assert_eq!(AppError::Request("r".to_string()).message(), "Request error: r");
    assert_eq!(AppError::TokenExpired.message(), "Token expired");
    assert_eq!(AppError::Unauthorized.message(), "Please log in again");
    assert_eq!(
        AppError::RefreshFailure("already rendered".to_string()).message(),
        "already rendered"
    );
}

#[test]
fn url_catalog_samples() {
    assert_eq!(ImUrl::Login.get_url(), (HttpMethod::Post, "oauth/anyTenant/login"));
    assert_eq!(ImUrl::RefreshToken.get_url(), (HttpMethod::Post, "oauth/anyTenant/refresh"));
    assert_eq!(ImUrl::DeleteSession.get_url(), (HttpMethod::Delete, "im/chat/delete"));
    assert_eq!(ImUrl::ForgetPassword.get_url(), (HttpMethod::Put, "oauth/anyTenant/password"));
    assert_eq!(ImUrl::InitConfig.get_url(), (HttpMethod::Get, "system/anyTenant/config/init"));
}

#[test]
fn url_names_resolve_and_unknown_names_fail() {
    assert_eq!(ImUrl::from_str("login").unwrap(), ImUrl::Login);
    assert_eq!(ImUrl::from_str("setHide").unwrap(), ImUrl::SetHide);
    assert_eq!(ImUrl::from_str("confirmQRCode").unwrap(), ImUrl::ConfirmQRCode);
    // the catalog's one capitalized name
    assert_eq!(ImUrl::from_str("ModifyUserInfo").unwrap(), ImUrl::ModifyUserInfo);
    assert!(ImUrl::from_str("modifyUserInfo").is_err());
    match ImUrl::from_str("feedList") {
        Err(AppError::Request(msg)) => assert_eq!(msg, "Unknown URL type: feedList"),
        other => panic!("expected Request error, got {:?}", other),
    }
}

#[test]
fn default_configuration() {
    let config = AppConfig::default();
    assert_eq!(config.homeserver, "https://matrix.org");
    assert_eq!(config.websocket_url, "ws://localhost:8080");
    assert_eq!(config.version, "1.0.0");
}

#[test]
fn log_batch_renders_header_and_blocks() {
    let entry = LogEntry {
        timestamp: "2024-01-01 10:00:00".to_string(),
        level: "error".to_string(),
        message: "it broke".to_string(),
        stack: Some("at main".to_string()),
        url: Some("http://x".to_string()),
        line: Some(3),
        column: Some(7),
    };
    let rendered = format_logs(&vec![entry], "2024-01-01 10:00:05");
    let expected = "\n---\n**Error log time**: 2024-01-01 10:00:05  \n**Log entries**: 1  \n\n\
### [error] `error`\n\n\
**Time**: `2024-01-01 10:00:00`  \n\
**Location**: `http://x`:`3`:`7`  \n\
**Message**:  \n```\nit broke\n```\n\n\
**Stack**:  \n```\nat main\n```\n\n\
---\n\n";
    assert_eq!(rendered, expected);
}

#[test]
fn log_batch_omits_absent_fields() {
    let entry = LogEntry {
        timestamp: "t".to_string(),
        level: "debug".to_string(),
        message: "m".to_string(),
        stack: None,
        url: None,
        line: None,
        column: None,
    };
    let rendered = format_logs(&vec![entry], "now");
    let expected = "\n---\n**Error log time**: now  \n**Log entries**: 1  \n\n\
### [other] `debug`\n\n\
**Time**: `t`  \n\
**Message**:  \n```\nm\n```\n\n\
---\n\n";
    assert_eq!(rendered, expected);
}

#[test]
fn short_log_is_returned_unchanged() {
    assert_eq!(truncate_log("short", 100), "short");
}

#[test]
fn oversized_log_restarts_at_a_separator() {
    let content = "aaaa---\nbbbb";
    assert_eq!(
        truncate_log(content, 8),
        "...(log too large, showing last 8 characters)...\n\n---\nbbbb"
    );
    assert_eq!(
        truncate_log(content, 6),
        "...(log too large, showing last 6 characters)...\n\n-\nbbbb"
    );
}

#[test]
fn separator_search_finds_the_first_match() {
    assert_eq!(find_sep_from("aaaa---\nbb---\n", 0), Some(4));
    assert_eq!(find_sep_from("aaaa---\nbb---\n", 5), Some(10));
    assert_eq!(find_sep_from("no separators here", 0), None);
    assert_eq!(find_sep_from("abc", 0), None);
}

#[test]
fn string_helpers() {
    assert!(str_eq("same", "same"));
    assert!(!str_eq("same", "Same"));
    assert_eq!(find_char("abcb", 'b'), Some(1));
    assert_eq!(find_char("abc", 'z'), None);
    assert!(starts_with("mxc://x", "mxc://"));
    assert!(!starts_with("mx", "mxc://"));
    assert_eq!(truncate_chars("hello", 3), "hel");
    assert_eq!(truncate_chars("hi", 10), "hi");
    assert_eq!(trim_end_char("url////", '/'), "url");
    assert_eq!(trim_end_char("url", '/'), "url");
    assert_eq!(trim_end_char("////", '/'), "");
    assert_eq!(u64_to_string(0), "0");
    assert_eq!(u64_to_string(1048576), "1048576");
}
