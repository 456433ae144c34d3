//! Translating a stream of events.

use mini_chat_llm::anthropic::event::{AnthropicEvent, StreamingError};
use mini_chat_llm::anthropic::stream::{
    check_total, scan_event, tool_input, translate_anthropic_event, translate_with,
    AnthropicStreamState,
};
use mini_chat_llm::json::Json;
use mini_chat_llm::llm::{
    ClientSseEvent, LlmProviderError, TerminalOutcome, ToolPhase, TranslatedEvent,
};

fn translate(event: &AnthropicEvent, state: &mut AnthropicStreamState) -> TranslatedEvent {
    translate_anthropic_event(event, state, &|text: &str| text.to_owned())
}

fn value(json: &Json) -> serde_json::Value {
    serde_json::from_str(&json.render()).unwrap()
}

#[test]
fn state_machine_text_completion_flow() {
    let mut state = AnthropicStreamState::default();

    // message_start
    let ev = AnthropicEvent::MessageStart {
        message_id: "msg_001".to_owned(),
        input_tokens: 10,
        cache_read_input_tokens: 0,
        cache_creation_input_tokens: 0,
    };
    assert!(matches!(
        translate(&ev, &mut state),
        TranslatedEvent::Skip
    ));
    assert_eq!(state.message_id, "msg_001");
    assert_eq!(state.input_tokens, 10);

    // content_block_start (text)
    let ev = AnthropicEvent::ContentBlockStartText { index: 0 };
    assert!(matches!(
        translate(&ev, &mut state),
        TranslatedEvent::Skip
    ));

    // two text deltas
    let ev = AnthropicEvent::ContentBlockDeltaText {
        index: 0,
        text: "Hello".to_owned(),
    };
    let out = translate(&ev, &mut state);
    assert!(
        matches!(out, TranslatedEvent::Sse(ClientSseEvent::Delta { ref content, .. }) if content == "Hello")
    );
    assert_eq!(state.accumulated_text, "Hello");

    let ev = AnthropicEvent::ContentBlockDeltaText {
        index: 0,
        text: " world".to_owned(),
    };
    translate(&ev, &mut state);
    assert_eq!(state.accumulated_text, "Hello world");

    // message_delta with stop_reason
    let ev = AnthropicEvent::MessageDelta {
        stop_reason: "end_turn".to_owned(),
        output_tokens: 5,
        cache_read_input_tokens: 0,
        cache_creation_input_tokens: 0,
    };
    assert!(matches!(
        translate(&ev, &mut state),
        TranslatedEvent::Skip
    ));
    assert_eq!(state.stop_reason, "end_turn");
    assert_eq!(state.output_tokens, 5);

    // message_stop → Completed terminal
    let ev = AnthropicEvent::MessageStop;
    let out = translate(&ev, &mut state);
    match out {
        TranslatedEvent::Terminal(TerminalOutcome::Completed {
            usage,
            response_id,
            content,
            ..
        }) => {
            assert_eq!(usage.input_tokens, 10);
            assert_eq!(usage.output_tokens, 5);
            assert_eq!(response_id, "msg_001");
            assert_eq!(content, "Hello world");
        }
        other => panic!("expected Completed, got {other:?}"),
    }
}

#[test]
fn state_machine_tool_use_flow() {
    let mut state = AnthropicStreamState::default();

    translate(
        &AnthropicEvent::MessageStart {
            message_id: "msg_002".to_owned(),
            input_tokens: 20,
            cache_read_input_tokens: 0,
            cache_creation_input_tokens: 0,
        },
        &mut state,
    );

    // tool_use block starts — should emit Tool { Start }
    let out = translate(
        &AnthropicEvent::ContentBlockStartToolUse {
            index: 0,
            id: "toolu_123".to_owned(),
            name: "search_knowledge".to_owned(),
        },
        &mut state,
    );
    assert!(matches!(
        out,
        TranslatedEvent::Sse(ClientSseEvent::Tool {
            phase: ToolPhase::Start,
            name: "search_knowledge",
            ..
        })
    ));
    assert_eq!(state.tool_use_id, "toolu_123");

    // accumulate JSON input across two deltas
    translate(
        &AnthropicEvent::ContentBlockDeltaInputJson {
            index: 0,
            partial_json: r#"{"query":"te"#.to_owned(),
        },
        &mut state,
    );
    translate(
        &AnthropicEvent::ContentBlockDeltaInputJson {
            index: 0,
            partial_json: r#"st"}"#.to_owned(),
        },
        &mut state,
    );
    assert_eq!(state.tool_input_json, r#"{"query":"test"}"#);

    // message_delta with tool_use stop reason
    translate(
        &AnthropicEvent::MessageDelta {
            stop_reason: "tool_use".to_owned(),
            output_tokens: 8,
            cache_read_input_tokens: 0,
            cache_creation_input_tokens: 0,
        },
        &mut state,
    );

    // message_stop → ToolUse terminal
    let out = translate(&AnthropicEvent::MessageStop, &mut state);
    match out {
        TranslatedEvent::Terminal(TerminalOutcome::ToolUse {
            tool_use_id,
            name,
            input,
        }) => {
            assert_eq!(tool_use_id, "toolu_123");
            assert_eq!(name, "search_knowledge");
            assert_eq!(value(&input)["query"], "test");
        }
        other => panic!("expected ToolUse, got {other:?}"),
    }
}

#[test]
fn state_machine_max_tokens_produces_incomplete() {
    let mut state = AnthropicStreamState::default();
    translate(
        &AnthropicEvent::MessageStart {
            message_id: "msg_003".to_owned(),
            input_tokens: 5,
            cache_read_input_tokens: 0,
            cache_creation_input_tokens: 0,
        },
        &mut state,
    );
    translate(
        &AnthropicEvent::ContentBlockDeltaText {
            index: 0,
            text: "partial".to_owned(),
        },
        &mut state,
    );
    translate(
        &AnthropicEvent::MessageDelta {
            stop_reason: "max_tokens".to_owned(),
            output_tokens: 3,
            cache_read_input_tokens: 0,
            cache_creation_input_tokens: 0,
        },
        &mut state,
    );
    let out = translate(&AnthropicEvent::MessageStop, &mut state);
    assert!(matches!(
        out,
        TranslatedEvent::Terminal(TerminalOutcome::Incomplete { ref reason, .. })
        if reason == "max_tokens"
    ));
}

#[test]
fn state_machine_propagates_cache_tokens_to_terminal_usage() {
    let mut state = AnthropicStreamState::default();

    // message_start carries cache totals (set at request time).
    translate(
        &AnthropicEvent::MessageStart {
            message_id: "msg_cache".to_owned(),
            input_tokens: 100,
            cache_read_input_tokens: 500,
            cache_creation_input_tokens: 250,
        },
        &mut state,
    );
    translate(
        &AnthropicEvent::ContentBlockDeltaText {
            index: 0,
            text: "ok".to_owned(),
        },
        &mut state,
    );
    // message_delta omits cache fields (zero from serde default) — should
    // not clobber the values captured from message_start.
    translate(
        &AnthropicEvent::MessageDelta {
            stop_reason: "end_turn".to_owned(),
            output_tokens: 7,
            cache_read_input_tokens: 0,
            cache_creation_input_tokens: 0,
        },
        &mut state,
    );

    let out = translate(&AnthropicEvent::MessageStop, &mut state);
    match out {
        TranslatedEvent::Terminal(TerminalOutcome::Completed { usage, .. }) => {
            // input_tokens is normalized to wire input + cache_read +
            // cache_creation so the credits formula matches OpenAI.
            assert_eq!(usage.input_tokens, 100 + 500 + 250);
            assert_eq!(usage.output_tokens, 7);
            assert_eq!(usage.cache_read_input_tokens, 500);
            assert_eq!(usage.cache_write_input_tokens, 250);
        }
        other => panic!("expected Completed, got {other:?}"),
    }
}

#[test]
fn state_machine_server_tool_emits_start_and_done_events() {
    let mut state = AnthropicStreamState::default();

    let start = translate(
        &AnthropicEvent::ContentBlockStartServerToolUse {
            index: 0,
            name: "web_search".to_owned(),
        },
        &mut state,
    );
    assert!(matches!(
        start,
        TranslatedEvent::Sse(ClientSseEvent::Tool {
            phase: ToolPhase::Start,
            name: "web_search",
            ..
        })
    ));
    assert_eq!(state.current_server_tool, Some("web_search"));

    let stop =
        translate(&AnthropicEvent::ContentBlockStop { index: 0 }, &mut state);
    assert!(matches!(
        stop,
        TranslatedEvent::Sse(ClientSseEvent::Tool {
            phase: ToolPhase::Done,
            name: "web_search",
            ..
        })
    ));
    // The Done event consumed the tracked name so subsequent stops Skip.
    assert_eq!(state.current_server_tool, None);
    let next_stop =
        translate(&AnthropicEvent::ContentBlockStop { index: 1 }, &mut state);
    assert!(matches!(next_stop, TranslatedEvent::Skip));
}

#[test]
fn state_machine_unknown_server_tool_skipped() {
    let mut state = AnthropicStreamState::default();
    let out = translate(
        &AnthropicEvent::ContentBlockStartServerToolUse {
            index: 0,
            name: "future_tool_v2".to_owned(),
        },
        &mut state,
    );
    assert!(matches!(out, TranslatedEvent::Skip));
    assert_eq!(state.current_server_tool, None);
}

#[test]
fn state_machine_error_event_produces_failed() {
    let mut state = AnthropicStreamState::default();
    let out = translate(
        &AnthropicEvent::Error {
            error_type: "overloaded_error".to_owned(),
            message: "Service is overloaded".to_owned(),
        },
        &mut state,
    );
    match out {
        TranslatedEvent::Terminal(TerminalOutcome::Failed { error, .. }) => match error {
            LlmProviderError::ProviderError { code, .. } => {
                assert_eq!(code, "overloaded_error");
            }
            _ => panic!("expected ProviderError"),
        },
        other => panic!("expected Failed terminal, got {other:?}"),
    }
}

#[test]
fn delivered_text_is_the_final_content() {
    let mut state = AnthropicStreamState::default();
    let mut delivered = String::new();
    for piece in ["a", "", "bc", "é"] {
        let event = AnthropicEvent::ContentBlockDeltaText { index: 0, text: piece.to_owned() };
        match translate(&event, &mut state) {
            TranslatedEvent::Sse(ClientSseEvent::Delta { kind, content }) => {
                assert_eq!(kind, "text");
                delivered.push_str(&content);
            }
            other => panic!("expected Delta, got {other:?}"),
        }
        assert!(matches!(translate(&AnthropicEvent::Ping, &mut state), TranslatedEvent::Skip));
    }
    match translate(&AnthropicEvent::MessageStop, &mut state) {
        TranslatedEvent::Terminal(TerminalOutcome::Completed { content, raw_response, .. }) => {
            assert_eq!(content, delivered);
            assert_eq!(content, "abcé");
            assert_eq!(value(&raw_response)["id"], "");
        }
        other => panic!("expected Completed, got {other:?}"),
    }
}

#[test]
fn tool_input_that_is_no_json_becomes_an_empty_object() {
    let mut state = AnthropicStreamState::default();
    state.stop_reason = "tool_use".to_owned();
    state.tool_input_json = "{\"query\":".to_owned();
    match translate(&AnthropicEvent::MessageStop, &mut state) {
        TranslatedEvent::Terminal(TerminalOutcome::ToolUse { input, .. }) => {
            assert_eq!(input.render(), "{}");
        }
        other => panic!("expected ToolUse, got {other:?}"),
    }
    assert_eq!(tool_input(Err("x".to_owned())).render(), "{}");
    assert_eq!(tool_input(Ok(Json::text("q"))).render(), "\"q\"");
}

#[test]
fn a_new_tool_call_forgets_the_input_of_the_last() {
    let mut state = AnthropicStreamState::default();
    state.tool_input_json = "old".to_owned();
    let event = AnthropicEvent::ContentBlockStartToolUse {
        index: 0,
        id: "t".to_owned(),
        name: "load_files".to_owned(),
    };
    assert!(matches!(
        translate(&event, &mut state),
        TranslatedEvent::Sse(ClientSseEvent::Tool { phase: ToolPhase::Start, name: "load_files", .. })
    ));
    assert_eq!(state.tool_input_json, "");
    assert_eq!(state.tool_name, "load_files");
    let event = AnthropicEvent::ContentBlockStartToolUse {
        index: 0,
        id: "t".to_owned(),
        name: "mystery".to_owned(),
    };
    assert!(matches!(
        translate(&event, &mut state),
        TranslatedEvent::Sse(ClientSseEvent::Tool { name: "unknown_tool", .. })
    ));
    assert_eq!(state.tool_name, "mystery");
}

#[test]
fn versioned_server_tools_have_shared_names() {
    for (name, shared) in [
        ("web_search_20260209", "web_search"),
        ("code_execution", "code_interpreter"),
        ("code_execution_20250825", "code_interpreter"),
    ] {
        let mut state = AnthropicStreamState::default();
        let event =
            AnthropicEvent::ContentBlockStartServerToolUse { index: 0, name: name.to_owned() };
        match translate(&event, &mut state) {
            TranslatedEvent::Sse(ClientSseEvent::Tool { phase, name, details }) => {
                assert_eq!(phase, ToolPhase::Start);
                assert_eq!(name, shared);
                assert_eq!(details.render(), "{}");
            }
            other => panic!("expected Tool, got {other:?}"),
        }
        assert_eq!(state.current_server_tool, Some(shared));
    }
}

#[test]
fn delta_replaces_cache_totals_that_are_not_zero() {
    let mut state = AnthropicStreamState::default();
    state.cache_read_input_tokens = 5;
    state.cache_write_input_tokens = 6;
    translate(
        &AnthropicEvent::MessageDelta {
            stop_reason: "max_tokens".to_owned(),
            output_tokens: 1,
            cache_read_input_tokens: 50,
            cache_creation_input_tokens: 0,
        },
        &mut state,
    );
    assert_eq!(state.cache_read_input_tokens, 50);
    assert_eq!(state.cache_write_input_tokens, 6);
}

#[test]
fn error_messages_are_sanitized_and_kept() {
    let mut state = AnthropicStreamState::default();
    state.accumulated_text = "so far".to_owned();
    let event = AnthropicEvent::Error {
        error_type: "api_error".to_owned(),
        message: "req_1 failed".to_owned(),
    };
    let out = translate_anthropic_event(&event, &mut state, &|text: &str| {
        text.replace("req_1", "[id]")
    });
    match out {
        TranslatedEvent::Terminal(TerminalOutcome::Failed {
            error: LlmProviderError::ProviderError { code, message, raw_detail },
            usage,
            partial_content,
        }) => {
            assert_eq!(code, "api_error");
            assert_eq!(message, "[id] failed");
            assert_eq!(raw_detail.unwrap().0, "req_1 failed");
            assert!(usage.is_none());
            assert_eq!(partial_content, "so far");
        }
        other => panic!("expected Failed, got {other:?}"),
    }
}

#[test]
fn stream_errors_pass_and_leave_the_state() {
    let mut state = AnthropicStreamState::default();
    state.message_id = "m".to_owned();
    let error = StreamingError::ServerEventsParse { detail: "bad".to_owned() };
    match scan_event(Err(error), &mut state, &|text: &str| text.to_owned()) {
        Err(StreamingError::ServerEventsParse { detail }) => assert_eq!(detail, "bad"),
        Ok(other) => panic!("expected an error, got {other:?}"),
    }
    assert_eq!(state.message_id, "m");
    let step = scan_event(Ok(AnthropicEvent::Ping), &mut state, &|text: &str| text.to_owned());
    assert!(matches!(step, Ok(TranslatedEvent::Skip)));
}

#[test]
fn totals_are_checked() {
    assert!(check_total(1, 2, 3));
    assert!(!check_total(i64::MAX, 1, 0));
    assert!(!check_total(i64::MAX, 1, -1));
    assert!(check_total(i64::MAX, 0, 0));
    let mut state = AnthropicStreamState::default();
    assert!(state.check_usage());
    state.input_tokens = i64::MAX;
    state.cache_read_input_tokens = 1;
    assert!(!state.check_usage());
}

#[test]
fn translation_takes_the_outside_results() {
    let mut state = AnthropicStreamState::default();
    state.stop_reason = "tool_use".to_owned();
    let out = translate_with(
        &AnthropicEvent::MessageStop,
        &mut state,
        Json::text("given"),
        "clean".to_owned(),
    );
    assert!(matches!(
        out,
        TranslatedEvent::Terminal(TerminalOutcome::ToolUse { input, .. }) if input.render() == "\"given\""
    ));
}

#[test]
fn only_the_matching_stop_ends_a_server_tool() {
    let mut state = AnthropicStreamState::default();
    translate(
        &AnthropicEvent::ContentBlockStartServerToolUse { index: 3, name: "web_search".to_owned() },
        &mut state,
    );
    let other = translate(&AnthropicEvent::ContentBlockStop { index: 5 }, &mut state);
    assert!(matches!(other, TranslatedEvent::Skip));
    assert_eq!(state.current_server_tool, Some("web_search"));
    let own = translate(&AnthropicEvent::ContentBlockStop { index: 3 }, &mut state);
    assert!(matches!(
        own,
        TranslatedEvent::Sse(ClientSseEvent::Tool { phase: ToolPhase::Done, name: "web_search", .. })
    ));
    assert_eq!(state.current_server_tool, None);
    let again = translate(&AnthropicEvent::ContentBlockStop { index: 3 }, &mut state);
    assert!(matches!(again, TranslatedEvent::Skip));
}
