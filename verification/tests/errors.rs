//! Error responses and what the log says of them.

use mini_chat_llm::anthropic::error::{
    check_success, error_from_reading, format_diag_headers, llm_body_logging_enabled,
    log_anthropic_error_response, logged_request_body, step_failure, LoggedBodies,
};
use mini_chat_llm::json::Json;
use mini_chat_llm::llm::LlmProviderError;

fn parse_anthropic_error(
    status: http::StatusCode,
    headers: &http::HeaderMap,
    bytes: &[u8],
) -> LlmProviderError {
    mini_chat_llm::anthropic::error::parse_anthropic_error(
        status.as_u16(),
        headers,
        bytes,
        &|text: &str| text.to_owned(),
    )
}

#[test]
fn parse_anthropic_error_valid_json() {
    let bytes =
        br#"{"type":"error","error":{"type":"invalid_request_error","message":"max_tokens is required"}}"#;
    let err = parse_anthropic_error(
        http::StatusCode::BAD_REQUEST,
        &http::HeaderMap::new(),
        bytes,
    );
    match err {
        LlmProviderError::ProviderError { code, message, .. } => {
            assert_eq!(code, "invalid_request_error");
            // New behavior: surfaced message wraps the upstream code and HTTP status
            // around the original message so the UI shows actionable detail.
            assert!(message.contains("invalid_request_error"));
            assert!(message.contains("max_tokens is required"));
            assert!(message.contains("400"));
        }
        _ => panic!("expected ProviderError"),
    }
}

#[test]
fn parse_anthropic_error_rate_limit_routes_to_rate_limited() {
    let bytes = br#"{"type":"error","error":{"type":"rate_limit_error","message":"Error"}}"#;
    let mut headers = http::HeaderMap::new();
    headers.insert("retry-after", http::HeaderValue::from_static("23"));
    let err = parse_anthropic_error(http::StatusCode::TOO_MANY_REQUESTS, &headers, bytes);
    match err {
        LlmProviderError::RateLimited { retry_after_secs } => {
            assert_eq!(retry_after_secs, Some(23));
        }
        _ => panic!("expected RateLimited"),
    }
}

#[test]
fn parse_anthropic_error_unparseable_falls_back_to_invalid_response() {
    let bytes = b"not json at all";
    let err = parse_anthropic_error(
        http::StatusCode::BAD_GATEWAY,
        &http::HeaderMap::new(),
        bytes,
    );
    assert!(matches!(err, LlmProviderError::InvalidResponse { .. }));
}

fn keep(text: &str) -> String {
    text.to_owned()
}

#[test]
fn message_names_type_and_status() {
    let error = |text: &str| {
        parse_anthropic_error(
            http::StatusCode::from_u16(529).unwrap(),
            &http::HeaderMap::new(),
            text.as_bytes(),
        )
    };
    match error(r#"{"error":{"type":"overloaded_error","message":"  busy \n"}}"#) {
        LlmProviderError::ProviderError { code, message, raw_detail } => {
            assert_eq!(code, "overloaded_error");
            assert_eq!(message, "[overloaded_error] busy (HTTP 529)");
            assert_eq!(raw_detail.unwrap().0, "  busy \n");
        }
        other => panic!("expected ProviderError, got {other:?}"),
    }
    match error(r#"{"error":{"message":" 　"}}"#) {
        LlmProviderError::ProviderError { code, message, .. } => {
            assert_eq!(code, "");
            assert_eq!(message, "[] (HTTP 529)");
        }
        other => panic!("expected ProviderError, got {other:?}"),
    }
}

#[test]
fn message_holds_the_diagnostic_headers() {
    let mut headers = http::HeaderMap::new();
    headers.insert("retry-after", http::HeaderValue::from_static("77"));
    let body = br#"{"error":{"type":"invalid_request_error","message":"Error"}}"#;
    match parse_anthropic_error(http::StatusCode::BAD_REQUEST, &headers, body) {
        LlmProviderError::ProviderError { code, message, .. } => {
            assert_eq!(code, "invalid_request_error");
            assert_eq!(message, "[invalid_request_error] Error (HTTP 400) [retry-after=77]");
        }
        other => panic!("expected ProviderError, got {other:?}"),
    }
    headers.insert("request-id", http::HeaderValue::from_static("req_7"));
    headers.insert("cf-ray", http::HeaderValue::from_static("noise"));
    match parse_anthropic_error(http::StatusCode::BAD_REQUEST, &headers, body) {
        LlmProviderError::ProviderError { message, .. } => assert_eq!(
            message,
            "[invalid_request_error] Error (HTTP 400) [request-id=req_7, retry-after=77]"
        ),
        other => panic!("expected ProviderError, got {other:?}"),
    }
}

#[test]
fn rate_limits_go_by_type_or_by_status() {
    let mut headers = http::HeaderMap::new();
    let limited = br#"{"error":{"type":"rate_limit_error"}}"#;
    let other = br#"{"error":{"type":"api_error"}}"#;
    for (wait, secs) in [
        ("+7", Some(7)),
        ("0", Some(0)),
        ("18446744073709551615", Some(u64::MAX)),
        ("18446744073709551616", None),
        ("-1", None),
        ("", None),
        ("+", None),
        (" 5", None),
        ("Wed, 21 Oct 2015 07:28:00 GMT", None),
    ] {
        headers.insert("retry-after", http::HeaderValue::from_static(wait));
        assert_eq!(secs, wait.parse::<u64>().ok());
        for (status, body) in [(400, &limited[..]), (429, &other[..]), (429, &limited[..])] {
            let status = http::StatusCode::from_u16(status).unwrap();
            match parse_anthropic_error(status, &headers, body) {
                LlmProviderError::RateLimited { retry_after_secs } => {
                    assert_eq!(retry_after_secs, secs);
                }
                other => panic!("expected RateLimited, got {other:?}"),
            }
        }
    }
    headers.insert("retry-after", http::HeaderValue::from_bytes(b"\xff").unwrap());
    headers.append("retry-after", http::HeaderValue::from_static("5"));
    assert!(matches!(
        parse_anthropic_error(http::StatusCode::TOO_MANY_REQUESTS, &headers, limited),
        LlmProviderError::RateLimited { retry_after_secs: None }
    ));
    let unreadable =
        parse_anthropic_error(http::StatusCode::TOO_MANY_REQUESTS, &headers, b"slow down");
    assert!(matches!(unreadable, LlmProviderError::InvalidResponse { .. }));
}

#[test]
fn unparseable_bodies_are_quoted_in_part() {
    let long = "é".repeat(250);
    match parse_anthropic_error(http::StatusCode::BAD_GATEWAY, &http::HeaderMap::new(), long.as_bytes()) {
        LlmProviderError::InvalidResponse { detail } => {
            let head = "non-SSE response (HTTP 502) with unparseable body: ".to_owned();
            assert_eq!(detail, head + &"é".repeat(200));
        }
        other => panic!("expected InvalidResponse, got {other:?}"),
    }
    match parse_anthropic_error(http::StatusCode::BAD_GATEWAY, &http::HeaderMap::new(), b"a\xffb") {
        LlmProviderError::InvalidResponse { detail } => {
            assert_eq!(
                detail,
                "non-SSE response (HTTP 502) with unparseable body: a\u{fffd}b"
            );
        }
        other => panic!("expected InvalidResponse, got {other:?}"),
    }
}

#[test]
fn errors_take_the_outside_results() {
    let hide = |text: &str| text.replace("secret", "***");
    match error_from_reading(500, None, "", Err("x".to_owned()), "a secret", &hide) {
        LlmProviderError::InvalidResponse { detail } => {
            assert_eq!(detail, "non-SSE response (HTTP 500) with unparseable body: a ***");
        }
        other => panic!("expected InvalidResponse, got {other:?}"),
    }
    let told = Json::parse(r#"{"error":{"type":"t","message":"secret"}}"#);
    match error_from_reading(500, None, "request-id=secret", told, "", &hide) {
        LlmProviderError::ProviderError { message, raw_detail, .. } => {
            assert_eq!(message, "[t] *** (HTTP 500) [request-id=***]");
            assert_eq!(raw_detail.unwrap().0, "secret");
        }
        other => panic!("expected ProviderError, got {other:?}"),
    }
}

#[test]
fn failed_steps_are_told() {
    match step_failure("failed to read response body", "closed") {
        LlmProviderError::InvalidResponse { detail } => {
            assert_eq!(detail, "failed to read response body: closed");
        }
        other => panic!("expected InvalidResponse, got {other:?}"),
    }
}

#[test]
fn success_is_two_hundred_to_two_ninety_nine() {
    for code in 100..1000 {
        let status = http::StatusCode::from_u16(code).unwrap();
        assert_eq!(check_success(code), status.is_success());
    }
}

#[test]
fn diagnostic_headers_are_sorted() {
    let mut headers = http::HeaderMap::new();
    for (name, value) in [
        ("retry-after", "9"),
        ("cf-ray", "x"),
        ("Request-Id", "r1"),
        ("anthropic-ratelimit-tokens", "1"),
        ("anthropic-", "odd"),
        ("anthropic", "no"),
        ("content-type", "text/html"),
    ] {
        headers.append(
            http::HeaderName::from_bytes(name.as_bytes()).unwrap(),
            http::HeaderValue::from_static(value),
        );
    }
    headers.append("request-id", http::HeaderValue::from_static("a\tb"));
    headers.append("request-id", http::HeaderValue::from_bytes(b"\x80").unwrap());
    let expected = "anthropic-=odd, anthropic-ratelimit-tokens=1, content-type=text/html, \
                    request-id=a\tb, request-id=r1, retry-after=9";
    assert_eq!(format_diag_headers(&headers), expected);
    let mut backwards = http::HeaderMap::new();
    let mut pairs: Vec<_> = headers.iter().collect();
    pairs.reverse();
    for (name, value) in pairs {
        backwards.append(name.clone(), value.clone());
    }
    assert_eq!(format_diag_headers(&backwards), expected);
    assert_eq!(format_diag_headers(&http::HeaderMap::new()), "");
}

#[test]
fn bodies_are_logged_on_request_only() {
    for (text, on) in [("1", true), ("true", true), ("TRUE", true), ("yes", true), ("True", false), ("0", false), ("", false)] {
        assert_eq!(llm_body_logging_enabled(Some(text)), on);
    }
    assert!(!llm_body_logging_enabled(None));

    let request = Json::text(&"q".repeat(5000));
    let mut headers = http::HeaderMap::new();
    headers.insert("request-id", http::HeaderValue::from_static("r"));
    let hide = |text: &str| text.replace("id_1", "[id]");
    let quiet =
        log_anthropic_error_response("stream", "/a", &request, 500, &headers, b"id_1!", false, &hide);
    assert_eq!(quiet.op, "stream");
    assert_eq!(quiet.uri, "/a");
    assert_eq!(quiet.status, 500);
    assert_eq!(quiet.response_headers, "request-id=r");
    assert!(matches!(quiet.bodies, LoggedBodies::Redacted { response_size_bytes: 5 }));
    let full =
        log_anthropic_error_response("stream", "/a", &request, 500, &headers, b"id_1!", true, &hide);
    match full.bodies {
        LoggedBodies::Shown { request_body, response_body } => {
            assert_eq!(request_body, "\"".to_owned() + &"q".repeat(3999) + "…[truncated]");
            assert_eq!(response_body, "[id]!");
        }
        other => panic!("expected bodies, got {other:?}"),
    }
    assert_eq!(logged_request_body(&Json::text("x"), true), Some("\"x\"".to_owned()));
    assert_eq!(logged_request_body(&Json::text("x"), false), None);
    let long = "z".repeat(4001);
    let full = log_anthropic_error_response("stream", "/a", &request, 500, &headers, long.as_bytes(), true, &keep);
    assert!(matches!(full.bodies, LoggedBodies::Shown { response_body, .. } if response_body == "z".repeat(4000) + "…[truncated]"));
}
