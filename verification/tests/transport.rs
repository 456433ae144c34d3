//! Outbound requests and the responses to requests for files.

use std::sync::Arc;

use mini_chat_llm::anthropic::files::{
    delete_step, file_part, upload_from_reading, upload_outcome, AnthropicFileRef,
    AnthropicFilesClient, DeleteStep,
};
use mini_chat_llm::anthropic::provider::{prepare_call, AnthropicMessagesProvider};
use mini_chat_llm::anthropic::transport::{
    delete_request, file_uri, files_uri, messages_request, messages_uri, opt_in_to_files,
    upstream_headers, PassthroughMode, ANTHROPIC_FILES_BETA,
};
use mini_chat_llm::json::Json;
use mini_chat_llm::llm::LlmProviderError;
use mini_chat_llm::request::llm_request;

#[test]
fn upstream_rules() {
    let config = upstream_headers();
    assert!(config.response.is_none());
    let rules = config.request.unwrap();
    assert_eq!(rules.set, [("anthropic-version".to_owned(), "2023-06-01".to_owned())]);
    assert_eq!(rules.passthrough, PassthroughMode::Allowlist);
    assert_eq!(rules.passthrough_allowlist, ["accept", "anthropic-beta"]);
}

#[test]
fn uris_start_with_the_alias() {
    assert_eq!(messages_uri("up"), "/up");
    assert_eq!(files_uri("up"), "/up/v1/files");
    assert_eq!(file_uri("up", "file_1"), "/up/v1/files/file_1");
}

#[test]
fn message_requests() {
    for (stream, accept) in [(true, "text/event-stream"), (false, "application/json")] {
        let request = messages_request("up", stream, &Json::text("b")).unwrap();
        assert_eq!(request.method(), http::Method::POST);
        assert_eq!(request.uri().to_string(), "/up");
        assert_eq!(request.headers().len(), 3);
        assert_eq!(request.headers()["content-type"], "application/json");
        assert_eq!(request.headers()["accept"], accept);
        assert_eq!(request.headers()["anthropic-beta"], "files-api-2025-04-14");
        assert_eq!(request.body(), b"\"b\"");
    }
    let call = prepare_call(&llm_request("m").build_streaming(), true, "up").unwrap();
    assert_eq!(call.uri, "/up");
    assert_eq!(call.body.render(), r#"{"max_tokens":4096,"model":"m","stream":true}"#);
    assert_eq!(call.request.body(), call.body.render().as_bytes());
}

#[test]
fn aliases_that_make_no_uri() {
    let reason = http::Request::builder().uri("/a b").body(()).unwrap_err().to_string();
    match messages_request("a b", true, &Json::Null) {
        Err(LlmProviderError::InvalidResponse { detail }) => {
            assert_eq!(detail, "failed to build HTTP request: ".to_owned() + &reason);
        }
        other => panic!("expected InvalidResponse, got {other:?}"),
    }
    match delete_request("a b", "f") {
        Err(LlmProviderError::InvalidResponse { detail }) => {
            assert_eq!(detail, "failed to build delete request: ".to_owned() + &reason);
        }
        other => panic!("expected InvalidResponse, got {other:?}"),
    }
    let longest = "aZ09-_.~/".repeat(10_000);
    let longest = &longest[..65533];
    let request = messages_request(longest, true, &Json::Null).unwrap();
    assert_eq!(request.uri().to_string(), "/".to_owned() + longest);
    assert!(messages_request(&longest.repeat(2)[..65534], true, &Json::Null).is_err());
}

#[test]
fn delete_requests() {
    let request = delete_request("up", "file_1").unwrap();
    assert_eq!(request.method(), http::Method::DELETE);
    assert_eq!(request.uri().to_string(), "/up/v1/files/file_1");
    assert_eq!(request.headers().len(), 1);
    assert_eq!(request.headers()["anthropic-beta"], ANTHROPIC_FILES_BETA);
    assert!(request.body().is_empty());
}

#[test]
fn uploads_opt_in_once() {
    let mut headers = http::HeaderMap::new();
    headers.append("anthropic-beta", http::HeaderValue::from_static("x"));
    headers.append("anthropic-beta", http::HeaderValue::from_static("y"));
    headers.append("other", http::HeaderValue::from_static("z"));
    assert!(opt_in_to_files(&mut headers));
    assert_eq!(headers.get_all("anthropic-beta").iter().count(), 1);
    assert_eq!(headers["anthropic-beta"], "files-api-2025-04-14");
    assert_eq!(headers["other"], "z");
    let mut again = http::HeaderMap::new();
    assert!(opt_in_to_files(&mut again));
    assert_eq!(again["anthropic-beta"], "files-api-2025-04-14");
    let part = file_part("a.pdf", "application/pdf", vec![1, 2]);
    assert_eq!(part.field, "a.pdf");
    assert_eq!(part.filename, "a.pdf");
    assert_eq!(part.content_type, "application/pdf");
    assert_eq!(part.data, [1, 2]);
}

#[test]
fn only_full_headers_take_no_opt_in() {
    let mut full = http::HeaderMap::new();
    let mut count = 0;
    loop {
        let name = http::HeaderName::from_bytes(format!("x-{count}").as_bytes()).unwrap();
        if full.try_append(name, http::HeaderValue::from_static("v")).is_err() {
            break;
        }
        count += 1;
        if count == 10_000 {
            let mut many = full.clone();
            assert!(opt_in_to_files(&mut many));
            assert_eq!(many.len(), 10_001);
        }
    }
    assert!(count >= 10_000);
    assert!(!opt_in_to_files(&mut full));
    assert_eq!(full.len(), count);
    assert!(full.get("anthropic-beta").is_none());
}

#[test]
fn upload_responses() {
    let headers = http::HeaderMap::new();
    let keep = |text: &str| text.to_owned();
    let file = upload_outcome(200, &headers, br#"{"id":"file_1","size":3}"#, &keep).unwrap();
    assert_eq!(file.file_id, "file_1");
    let copy: AnthropicFileRef = file.clone();
    assert_eq!(copy.file_id, "file_1");
    match upload_outcome(201, &headers, br#"{"name":"x"}"#, &keep) {
        Err(LlmProviderError::InvalidResponse { detail }) => {
            assert_eq!(detail, "failed to parse upload response: unexpected shape");
        }
        other => panic!("expected InvalidResponse, got {other:?}"),
    }
    let reason = serde_json::from_slice::<serde_json::Value>(b"oops").unwrap_err().to_string();
    match upload_outcome(200, &headers, b"oops", &keep) {
        Err(LlmProviderError::InvalidResponse { detail }) => {
            assert_eq!(detail, "failed to parse upload response: ".to_owned() + &reason);
        }
        other => panic!("expected InvalidResponse, got {other:?}"),
    }
    match upload_outcome(413, &headers, br#"{"error":{"type":"too_large","message":"m"}}"#, &keep) {
        Err(LlmProviderError::ProviderError { code, .. }) => assert_eq!(code, "too_large"),
        other => panic!("expected ProviderError, got {other:?}"),
    }
    match upload_from_reading(429, Some(4), "", Json::parse(r#"{"error":{}}"#), "", &keep) {
        Err(LlmProviderError::RateLimited { retry_after_secs }) => {
            assert_eq!(retry_after_secs, Some(4));
        }
        other => panic!("expected RateLimited, got {other:?}"),
    }
}

#[test]
fn a_missing_file_counts_as_deleted() {
    assert_eq!(delete_step(404), DeleteStep::Done);
    assert_eq!(delete_step(200), DeleteStep::Done);
    assert_eq!(delete_step(204), DeleteStep::Done);
    assert_eq!(delete_step(300), DeleteStep::ReadError);
    assert_eq!(delete_step(500), DeleteStep::ReadError);
}

#[test]
fn clients_keep_their_gateway() {
    let gateway = Arc::new(5_u8);
    assert_eq!(*AnthropicFilesClient::new(gateway.clone()).gateway, 5);
    let provider = AnthropicMessagesProvider::new(gateway);
    assert_eq!(*provider.clone().gateway, *provider.gateway);
    assert_eq!(*provider.gateway, 5);
}
