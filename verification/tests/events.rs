//! Decoding server-sent events.

use mini_chat_llm::anthropic::event::{AnthropicEvent, ServerEvent, StreamingError};

fn sse(event: &str, data: &str) -> ServerEvent {
    ServerEvent {
        event: Some(event.to_owned()),
        data: data.to_owned(),
        id: None,
        retry: None,
    }
}

#[test]
fn parse_message_start() {
    let ev = sse(
        "message_start",
        r#"{"type":"message_start","message":{"id":"msg_abc","type":"message","role":"assistant","content":[],"model":"sonnet-3-5-20241022","stop_reason":null,"usage":{"input_tokens":42,"output_tokens":1}}}"#,
    );
    let result = AnthropicEvent::from_server_event(ev).unwrap();
    match result {
        AnthropicEvent::MessageStart {
            message_id,
            input_tokens,
            cache_read_input_tokens,
            cache_creation_input_tokens,
        } => {
            assert_eq!(message_id, "msg_abc");
            assert_eq!(input_tokens, 42);
            assert_eq!(cache_read_input_tokens, 0);
            assert_eq!(cache_creation_input_tokens, 0);
        }
        _ => panic!("expected MessageStart, got {result:?}"),
    }
}

#[test]
fn parse_message_start_with_cache_tokens() {
    let ev = sse(
        "message_start",
        r#"{"type":"message_start","message":{"id":"msg_cache","type":"message","role":"assistant","content":[],"model":"sonnet-3-5-20241022","stop_reason":null,"usage":{"input_tokens":100,"cache_read_input_tokens":500,"cache_creation_input_tokens":250,"output_tokens":1}}}"#,
    );
    let result = AnthropicEvent::from_server_event(ev).unwrap();
    match result {
        AnthropicEvent::MessageStart {
            input_tokens,
            cache_read_input_tokens,
            cache_creation_input_tokens,
            ..
        } => {
            assert_eq!(input_tokens, 100);
            assert_eq!(cache_read_input_tokens, 500);
            assert_eq!(cache_creation_input_tokens, 250);
        }
        _ => panic!("expected MessageStart, got {result:?}"),
    }
}

#[test]
fn parse_content_block_start_text() {
    let ev = sse(
        "content_block_start",
        r#"{"type":"content_block_start","index":0,"content_block":{"type":"text","text":""}}"#,
    );
    let result = AnthropicEvent::from_server_event(ev).unwrap();
    assert!(matches!(
        result,
        AnthropicEvent::ContentBlockStartText { index: 0 }
    ));
}

#[test]
fn parse_content_block_start_tool_use() {
    let ev = sse(
        "content_block_start",
        r#"{"type":"content_block_start","index":1,"content_block":{"type":"tool_use","id":"toolu_xyz","name":"search_knowledge","input":{}}}"#,
    );
    let result = AnthropicEvent::from_server_event(ev).unwrap();
    match result {
        AnthropicEvent::ContentBlockStartToolUse { index, id, name } => {
            assert_eq!(index, 1);
            assert_eq!(id, "toolu_xyz");
            assert_eq!(name, "search_knowledge");
        }
        _ => panic!("expected ContentBlockStartToolUse, got {result:?}"),
    }
}

#[test]
fn parse_content_block_start_server_tool_use() {
    let ev = sse(
        "content_block_start",
        r#"{"type":"content_block_start","index":2,"content_block":{"type":"server_tool_use","id":"srvtool_abc","name":"web_search"}}"#,
    );
    let result = AnthropicEvent::from_server_event(ev).unwrap();
    match result {
        AnthropicEvent::ContentBlockStartServerToolUse { index, name } => {
            assert_eq!(index, 2);
            assert_eq!(name, "web_search");
        }
        _ => panic!("expected ContentBlockStartServerToolUse, got {result:?}"),
    }
}

#[test]
fn parse_content_block_delta_text() {
    let ev = sse(
        "content_block_delta",
        r#"{"type":"content_block_delta","index":0,"delta":{"type":"text_delta","text":"Hello!"}}"#,
    );
    let result = AnthropicEvent::from_server_event(ev).unwrap();
    match result {
        AnthropicEvent::ContentBlockDeltaText { index, text } => {
            assert_eq!(index, 0);
            assert_eq!(text, "Hello!");
        }
        _ => panic!("expected ContentBlockDeltaText, got {result:?}"),
    }
}

#[test]
fn parse_content_block_delta_input_json() {
    let ev = sse(
        "content_block_delta",
        r#"{"type":"content_block_delta","index":1,"delta":{"type":"input_json_delta","partial_json":"{\"query\""}}"#,
    );
    let result = AnthropicEvent::from_server_event(ev).unwrap();
    match result {
        AnthropicEvent::ContentBlockDeltaInputJson {
            index,
            partial_json,
        } => {
            assert_eq!(index, 1);
            assert_eq!(partial_json, r#"{"query""#);
        }
        _ => panic!("expected ContentBlockDeltaInputJson, got {result:?}"),
    }
}

#[test]
fn parse_content_block_stop() {
    let ev = sse(
        "content_block_stop",
        r#"{"type":"content_block_stop","index":0}"#,
    );
    let result = AnthropicEvent::from_server_event(ev).unwrap();
    assert!(matches!(
        result,
        AnthropicEvent::ContentBlockStop { index: 0 }
    ));
}

#[test]
fn parse_message_delta_end_turn() {
    let ev = sse(
        "message_delta",
        r#"{"type":"message_delta","delta":{"stop_reason":"end_turn","stop_sequence":null},"usage":{"output_tokens":37}}"#,
    );
    let result = AnthropicEvent::from_server_event(ev).unwrap();
    match result {
        AnthropicEvent::MessageDelta {
            stop_reason,
            output_tokens,
            cache_read_input_tokens,
            cache_creation_input_tokens,
        } => {
            assert_eq!(stop_reason, "end_turn");
            assert_eq!(output_tokens, 37);
            assert_eq!(cache_read_input_tokens, 0);
            assert_eq!(cache_creation_input_tokens, 0);
        }
        _ => panic!("expected MessageDelta, got {result:?}"),
    }
}

#[test]
fn parse_message_delta_with_cache_tokens() {
    let ev = sse(
        "message_delta",
        r#"{"type":"message_delta","delta":{"stop_reason":"end_turn","stop_sequence":null},"usage":{"output_tokens":37,"cache_read_input_tokens":500,"cache_creation_input_tokens":250}}"#,
    );
    let result = AnthropicEvent::from_server_event(ev).unwrap();
    match result {
        AnthropicEvent::MessageDelta {
            output_tokens,
            cache_read_input_tokens,
            cache_creation_input_tokens,
            ..
        } => {
            assert_eq!(output_tokens, 37);
            assert_eq!(cache_read_input_tokens, 500);
            assert_eq!(cache_creation_input_tokens, 250);
        }
        _ => panic!("expected MessageDelta, got {result:?}"),
    }
}

#[test]
fn parse_message_stop() {
    let ev = sse("message_stop", r#"{"type":"message_stop"}"#);
    let result = AnthropicEvent::from_server_event(ev).unwrap();
    assert!(matches!(result, AnthropicEvent::MessageStop));
}

#[test]
fn parse_ping() {
    let ev = sse("ping", r#"{"type":"ping"}"#);
    let result = AnthropicEvent::from_server_event(ev).unwrap();
    assert!(matches!(result, AnthropicEvent::Ping));
}

#[test]
fn parse_error_event() {
    let ev = sse(
        "error",
        r#"{"error":{"type":"overloaded_error","message":"Service overloaded"}}"#,
    );
    let result = AnthropicEvent::from_server_event(ev).unwrap();
    match result {
        AnthropicEvent::Error {
            error_type,
            message,
        } => {
            assert_eq!(error_type, "overloaded_error");
            assert_eq!(message, "Service overloaded");
        }
        _ => panic!("expected Error, got {result:?}"),
    }
}

#[test]
fn parse_unknown_event_does_not_fail() {
    let ev = sse("some_future_event", r#"{"foo":"bar"}"#);
    let result = AnthropicEvent::from_server_event(ev).unwrap();
    assert!(matches!(result, AnthropicEvent::Unknown { .. }));
}

#[test]
fn parse_message_start_missing_usage_defaults_to_zero() {
    let ev = sse(
        "message_start",
        r#"{"type":"message_start","message":{"id":"msg_no_usage","type":"message","role":"assistant","content":[],"model":"sonnet-3"}}"#,
    );
    let result = AnthropicEvent::from_server_event(ev).unwrap();
    assert!(matches!(
        result,
        AnthropicEvent::MessageStart {
            input_tokens: 0,
            ..
        }
    ));
}

#[test]
fn event_without_name_is_unknown() {
    let mut ev = sse("", "{}");
    ev.event = None;
    match AnthropicEvent::from_server_event(ev).unwrap() {
        AnthropicEvent::Unknown { event_name } => assert_eq!(event_name, "unknown"),
        other => panic!("expected Unknown, got {other:?}"),
    }
}

#[test]
fn error_event_with_other_data_keeps_it_as_message() {
    for data in ["not json", r#"{"type":"error"}"#, r#"{"error":{"type":7}}"#, "[]"] {
        match AnthropicEvent::from_server_event(sse("error", data)).unwrap() {
            AnthropicEvent::Error { error_type, message } => {
                assert_eq!(error_type, "unknown");
                assert_eq!(message, data);
            }
            other => panic!("expected Error, got {other:?}"),
        }
    }
}

#[test]
fn structures_can_come_as_arrays() {
    match AnthropicEvent::from_server_event(sse("error", r#"[["a","b"]]"#)).unwrap() {
        AnthropicEvent::Error { error_type, message } => {
            assert_eq!(error_type, "a");
            assert_eq!(message, "b");
        }
        other => panic!("expected Error, got {other:?}"),
    }
    let ev = sse("content_block_delta", r#"[3, ["text_delta", "x"]]"#);
    assert!(matches!(
        AnthropicEvent::from_server_event(ev).unwrap(),
        AnthropicEvent::ContentBlockDeltaText { index: 3, text } if text == "x"
    ));
}

#[test]
fn undecodable_data_names_the_event() {
    let StreamingError::ServerEventsParse { detail } =
        AnthropicEvent::from_server_event(sse("content_block_stop", r#"{"index":-1}"#)).unwrap_err();
    assert_eq!(detail, "failed to parse content_block_stop: unexpected shape");
    let StreamingError::ServerEventsParse { detail } =
        AnthropicEvent::from_server_event(sse("message_start", "{")).unwrap_err();
    let reason = serde_json::from_str::<serde_json::Value>("{").unwrap_err().to_string();
    assert_eq!(detail, "failed to parse message_start: ".to_owned() + &reason);
    for name in ["message_start", "content_block_start", "content_block_delta", "message_delta"] {
        assert!(AnthropicEvent::from_server_event(sse(name, "{}")).is_err());
    }
    assert!(AnthropicEvent::from_server_event(sse("message_stop", "{")).is_ok());
    assert!(AnthropicEvent::from_server_event(sse("ping", "{")).is_ok());
}

#[test]
fn counts_are_signed_and_bounded() {
    let data = |n: &str| format!(r#"{{"delta":{{}},"usage":{{"output_tokens":{n}}}}}"#);
    let decode = |n: &str| AnthropicEvent::from_server_event(sse("message_delta", &data(n)));
    assert!(matches!(
        decode("-9223372036854775808").unwrap(),
        AnthropicEvent::MessageDelta { output_tokens: i64::MIN, .. }
    ));
    assert!(matches!(
        decode("9223372036854775807").unwrap(),
        AnthropicEvent::MessageDelta { output_tokens: i64::MAX, .. }
    ));
    assert!(decode("9223372036854775808").is_err());
    assert!(decode("1.0").is_err());
    assert!(decode("null").is_err());
}

#[test]
fn unknown_blocks_and_deltas_count_as_text() {
    let ev = sse("content_block_start", r#"{"index":4,"content_block":{"type":"thinking"}}"#);
    assert!(matches!(
        AnthropicEvent::from_server_event(ev).unwrap(),
        AnthropicEvent::ContentBlockStartText { index: 4 }
    ));
    let ev = sse("content_block_delta", r#"{"index":4,"delta":{"type":"other"}}"#);
    assert!(matches!(
        AnthropicEvent::from_server_event(ev).unwrap(),
        AnthropicEvent::ContentBlockDeltaText { index: 4, text } if text.is_empty()
    ));
}

#[test]
fn other_members_are_ignored() {
    let plain = AnthropicEvent::from_server_event(sse("content_block_stop", r#"{"index":5}"#));
    let more = AnthropicEvent::from_server_event(sse(
        "content_block_stop",
        r#"{"index":5,"extra":{"deep":[1.5e3,null]},"message":7}"#,
    ));
    assert!(matches!(plain, Ok(AnthropicEvent::ContentBlockStop { index: 5 })));
    assert!(matches!(more, Ok(AnthropicEvent::ContentBlockStop { index: 5 })));
}
