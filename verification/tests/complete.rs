//! Answers that come as a whole.

use mini_chat_llm::anthropic::complete::{
    build_complete_result, complete_response, completion_from_reading, decode_response,
    AnthropicMessageResponse, Completion, TOOL_USE_DETAIL,
};
use mini_chat_llm::json::Json;
use mini_chat_llm::llm::LlmProviderError;

fn response(text: &str) -> AnthropicMessageResponse {
    decode_response(&Json::parse(text).unwrap()).unwrap()
}

fn value(json: &Json) -> serde_json::Value {
    serde_json::from_str(&json.render()).unwrap()
}

#[test]
fn build_complete_result_rejects_tool_use_block() {
    let resp = response(
        r#"{
        "id": "msg_tool",
        "content": [
            { "type": "text", "text": "thinking..." },
            { "type": "tool_use" }
        ],
        "usage": { "input_tokens": 10, "output_tokens": 5 }
    }"#,
    );

    match build_complete_result(resp) {
        Err(LlmProviderError::InvalidResponse { detail }) => {
            assert!(detail.contains("tool_use"));
            assert!(detail.contains("complete()"));
        }
        other => panic!("expected InvalidResponse, got {other:?}"),
    }
}

#[test]
fn build_complete_result_text_only_succeeds_with_normalized_usage() {
    let resp = response(
        r#"{
        "id": "msg_text",
        "content": [
            { "type": "text", "text": "hello " },
            { "type": "text", "text": "world" }
        ],
        "usage": {
            "input_tokens": 100,
            "output_tokens": 7,
            "cache_read_input_tokens": 500,
            "cache_creation_input_tokens": 250
        }
    }"#,
    );

    let result = build_complete_result(resp).unwrap();
    assert_eq!(result.content, "hello world");
    assert_eq!(result.response_id, "msg_text");
    assert_eq!(result.usage.input_tokens, 100 + 500 + 250);
    assert_eq!(result.usage.output_tokens, 7);
    assert_eq!(result.usage.cache_read_input_tokens, 500);
    assert_eq!(result.usage.cache_write_input_tokens, 250);
}

#[test]
fn kept_json_holds_all_fields() {
    let resp = response(r#"{"id":"m","content":[{"type":"thinking"},{"type":"text","text":"x"}],"model":"q"}"#);
    let result = build_complete_result(resp).unwrap();
    assert_eq!(result.content, "x");
    assert!(result.citations.is_empty());
    assert_eq!(
        result.raw_response.render(),
        r#"{"content":[{"text":"","type":"thinking"},{"text":"x","type":"text"}],"id":"m","usage":{"cache_creation_input_tokens":0,"cache_read_input_tokens":0,"input_tokens":0,"output_tokens":0}}"#
    );
    let again = decode_response(&result.raw_response).unwrap();
    assert_eq!(again.id, "m");
    assert_eq!(again.content.len(), 2);
    assert_eq!(value(&result.raw_response)["content"][1]["text"], "x");
}

#[test]
fn shapes_that_are_no_answer() {
    for text in [
        "{}",
        r#"{"id":7}"#,
        r#"{"id":"m","content":null}"#,
        r#"{"id":"m","content":[{"text":"x"}]}"#,
        r#"{"id":"m","content":[7]}"#,
        r#"{"id":"m","usage":null}"#,
        r#"{"id":"m","usage":{"input_tokens":1.5}}"#,
        r#"["m",[],{},1]"#,
        "7",
    ] {
        assert!(decode_response(&Json::parse(text).unwrap()).is_none(), "{text}");
    }
    assert_eq!(response(r#"["m"]"#).id, "m");
    assert_eq!(response(r#"["m",[["text","y"]],[1,2]]"#).usage.output_tokens, 2);
}

#[test]
fn responses_are_answers_or_refusals() {
    let headers = http::HeaderMap::new();
    let keep = |text: &str| text.to_owned();
    let body = br#"{"id":"m","content":[{"type":"text","text":"hi"}]}"#;
    match complete_response(200, &headers, body, &keep) {
        Completion::Answered(Ok(result)) => assert_eq!(result.content, "hi"),
        other => panic!("expected an answer, got {other:?}"),
    }
    match complete_response(503, &headers, body, &keep) {
        Completion::Refused {
            op,
            parse_error,
            error: LlmProviderError::InvalidResponse { .. },
        } => {
            assert_eq!(op, "complete");
            assert_eq!(parse_error, None);
        }
        other => panic!("expected a refusal, got {other:?}"),
    }
    match complete_response(200, &headers, b"<html>", &keep) {
        Completion::Refused {
            op,
            parse_error,
            error: LlmProviderError::InvalidResponse { detail },
        } => {
            assert_eq!(op, "complete (body parse failed)");
            let reason = serde_json::from_slice::<serde_json::Value>(b"<html>").unwrap_err();
            assert_eq!(parse_error, Some(reason.to_string()));
            assert_eq!(detail, "non-SSE response (HTTP 200) with unparseable body: <html>");
        }
        other => panic!("expected a refusal, got {other:?}"),
    }
    let calls = br#"{"id":"m","content":[{"type":"tool_use"}],"usage":{"input_tokens":9223372036854775807,"cache_read_input_tokens":1}}"#;
    match complete_response(299, &headers, calls, &keep) {
        Completion::Answered(Err(LlmProviderError::InvalidResponse { detail })) => {
            assert_eq!(detail, TOOL_USE_DETAIL);
        }
        other => panic!("expected an error, got {other:?}"),
    }
    let huge = br#"{"id":"m","usage":{"input_tokens":9223372036854775807,"cache_read_input_tokens":1}}"#;
    assert!(matches!(complete_response(200, &headers, huge, &keep), Completion::Uncountable));
}

#[test]
fn completion_takes_the_outside_results() {
    let keep = |text: &str| text.to_owned();
    match completion_from_reading(200, None, "", Json::parse(r#"{"error":{"type":"t"}}"#), "", &keep) {
        Completion::Refused {
            op,
            parse_error,
            error: LlmProviderError::ProviderError { message, .. },
        } => {
            assert_eq!(op, "complete (body parse failed)");
            assert_eq!(parse_error.as_deref(), Some("unexpected shape"));
            assert_eq!(message, "[t] (HTTP 200)");
        }
        other => panic!("expected a refusal, got {other:?}"),
    }
    match completion_from_reading(500, Some(3), "", Err("x".to_owned()), "body", &keep) {
        Completion::Refused { op, error: LlmProviderError::InvalidResponse { detail }, .. } => {
            assert_eq!(op, "complete");
            assert_eq!(detail, "non-SSE response (HTTP 500) with unparseable body: body");
        }
        other => panic!("expected a refusal, got {other:?}"),
    }
}
