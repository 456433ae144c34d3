//! Building request bodies.

use mini_chat_llm::double::Double;
use mini_chat_llm::json::Json;
use mini_chat_llm::llm::{
    ContentPart, LlmMessage, LlmTool, ModelApiParams, Role, WebSearchContextSize,
};
use mini_chat_llm::request::{llm_request, FileIdMap, LlmRequest};

fn build_request_body<M>(request: &LlmRequest<M>, stream: bool) -> serde_json::Value {
    let body = mini_chat_llm::anthropic::body::build_request_body(request, stream);
    serde_json::from_str(&body.render()).unwrap()
}

fn item(text: &str) -> Json {
    Json::parse(text).unwrap()
}

#[test]
fn request_body_includes_required_max_tokens() {
    let req = llm_request("sonnet-3-5-20241022").build_streaming();
    let body = build_request_body(&req, true);
    assert!(body.get("max_tokens").is_some());
}

#[test]
fn request_body_uses_explicit_max_tokens() {
    let req = llm_request("sonnet-3-5-20241022")
        .max_output_tokens(1024)
        .build_streaming();
    let body = build_request_body(&req, true);
    assert_eq!(body["max_tokens"], 1024);
}

#[test]
fn request_body_system_at_top_level() {
    let req = llm_request("sonnet-3-5-20241022")
        .system_instructions("Be helpful.")
        .build_streaming();
    let body = build_request_body(&req, true);
    assert_eq!(body["system"], "Be helpful.");
    assert!(body.get("messages").is_none());
}

#[test]
fn request_body_system_role_excluded_from_messages() {
    let system_msg = LlmMessage {
        role: Role::System,
        content: vec![ContentPart::Text {
            text: "You are helpful.".to_owned(),
        }],
    };
    let user_msg = LlmMessage::user("Hello");
    let req = llm_request("sonnet-3-5-20241022")
        .messages(vec![system_msg, user_msg])
        .build_streaming();
    let body = build_request_body(&req, true);
    let messages = body["messages"].as_array().unwrap();
    assert_eq!(messages.len(), 1);
    assert_eq!(messages[0]["role"], "user");
}

#[test]
fn request_body_user_and_assistant_messages() {
    let req = llm_request("sonnet-3-5-20241022")
        .messages(vec![
            LlmMessage::user("Hello"),
            LlmMessage::assistant("Hi!"),
        ])
        .build_streaming();
    let body = build_request_body(&req, true);
    let msgs = body["messages"].as_array().unwrap();
    assert_eq!(msgs.len(), 2);
    assert_eq!(msgs[0]["role"], "user");
    assert_eq!(msgs[0]["content"][0]["type"], "text");
    assert_eq!(msgs[0]["content"][0]["text"], "Hello");
    assert_eq!(msgs[1]["role"], "assistant");
}

#[test]
fn request_body_image_content_uses_anthropic_file_id_substitution() {
    let msg = LlmMessage {
        role: Role::User,
        content: vec![ContentPart::Image {
            file_id: "azure_primary_id".to_owned(),
        }],
    };
    // The adapter substitutes the primary `provider_file_id` with the
    // Anthropic file id from the lookup map populated at request time
    // from successful parallel uploads.
    let mut map = FileIdMap::new();
    map.insert("azure_primary_id", "file_011_anth");

    let req = llm_request("sonnet-3-5-20241022")
        .messages(vec![msg])
        .anthropic_file_ids(map)
        .build_streaming();
    let body = build_request_body(&req, true);
    let content = &body["messages"][0]["content"][0];
    assert_eq!(content["type"], "image");
    assert_eq!(content["source"]["type"], "file");
    assert_eq!(content["source"]["file_id"], "file_011_anth");
}

#[test]
fn request_body_image_block_dropped_when_anthropic_file_id_missing() {
    // Image referenced by primary id, but the parallel upload failed —
    // the map is empty. Adapter must skip the image block rather than
    // send a primary id that Anthropic cannot resolve (would 4xx).
    let msg = LlmMessage {
        role: Role::User,
        content: vec![
            ContentPart::Text {
                text: "Describe this".to_owned(),
            },
            ContentPart::Image {
                file_id: "azure_primary_id".to_owned(),
            },
        ],
    };
    let req = llm_request("sonnet-3-5-20241022")
        .messages(vec![msg])
        .build_streaming();
    let body = build_request_body(&req, true);
    let content = body["messages"][0]["content"].as_array().unwrap();
    assert_eq!(content.len(), 1, "image block should be dropped");
    assert_eq!(content[0]["type"], "text");
}

#[test]
fn request_body_function_tool_uses_input_schema() {
    let tool = LlmTool::Function {
        name: "search_knowledge".to_owned(),
        description: "Search knowledge base".to_owned(),
        parameters: item(r#"{"type": "object"}"#),
    };
    let req = llm_request("sonnet-3-5-20241022")
        .tool(tool)
        .build_streaming();
    let body = build_request_body(&req, true);
    let tools = body["tools"].as_array().unwrap();
    assert_eq!(tools.len(), 1);
    assert_eq!(tools[0]["name"], "search_knowledge");
    assert!(tools[0].get("input_schema").is_some());
    assert!(tools[0].get("parameters").is_none());
    assert!(tools[0].get("type").is_none());
}

#[test]
fn request_body_file_search_tool_dropped() {
    let req = llm_request("sonnet-3-5-20241022")
        .tool(LlmTool::FileSearch {
            vector_store_ids: vec!["vs_1".to_owned()],
            filters: None,
            max_num_results: None,
        })
        .build_streaming();
    let body = build_request_body(&req, true);
    assert!(body.get("tools").is_none());
}

#[test]
fn request_body_web_search_uses_native_server_tool() {
    let req = llm_request("sonnet-3-5-20241022")
        .tool(LlmTool::WebSearch {
            search_context_size: WebSearchContextSize::Medium,
        })
        .build_streaming();
    let body = build_request_body(&req, true);
    let tools = body["tools"].as_array().expect("tools array present");
    assert_eq!(tools.len(), 1);
    assert_eq!(tools[0]["type"], "web_search_20260209");
    assert_eq!(tools[0]["name"], "web_search");
}

#[test]
fn request_body_code_interpreter_uses_native_server_tool() {
    let req = llm_request("sonnet-3-5-20241022")
        .tool(LlmTool::CodeInterpreter { file_ids: vec![] })
        .build_streaming();
    let body = build_request_body(&req, true);
    let tools = body["tools"].as_array().expect("tools array present");
    assert_eq!(tools.len(), 1);
    assert_eq!(tools[0]["type"], "code_execution_20250825");
    assert_eq!(tools[0]["name"], "code_execution");
}

#[test]
fn request_body_metadata_user_id_format() {
    let req = llm_request("sonnet-3-5-20241022")
        .user_identity("tenant-1", "user-2")
        .build_streaming();
    let body = build_request_body(&req, true);
    assert_eq!(body["metadata"]["user_id"], "tenant-1:user-2");
}

#[test]
fn request_body_raw_input_items_appended_as_messages() {
    let items = vec![
        item(r#"{"type":"function_call","call_id":"c1","name":"search_knowledge","arguments":"{}"}"#),
        item(r#"{"type":"function_call_output","call_id":"c1","output":"result"}"#),
    ];
    let req = llm_request("sonnet-3-5-20241022")
        .raw_input_items(items)
        .build_streaming();
    let body = build_request_body(&req, true);
    let msgs = body["messages"].as_array().unwrap();
    assert_eq!(msgs.len(), 2);
    assert_eq!(msgs[0]["role"], "assistant");
    assert_eq!(msgs[1]["role"], "user");
}

fn finite(x: f64) -> Double {
    Double::Finite(serde_json::Number::from_f64(x).unwrap())
}

fn params(temperature: Double, top_p: Double, stop: &[&str]) -> ModelApiParams {
    ModelApiParams { temperature, top_p, stop: stop.iter().map(|s| (*s).to_owned()).collect() }
}

#[test]
fn bare_request_has_three_members() {
    let request = llm_request("m").build_non_streaming();
    assert_eq!(
        build_request_body(&request, false).to_string(),
        r#"{"max_tokens":4096,"model":"m","stream":false}"#
    );
}

#[test]
fn one_sampling_parameter_is_sent() {
    for top_p in [1.0, 1.5, f64::MAX] {
        let request = llm_request("m").api_params(params(finite(0.25), finite(top_p), &[])).build_streaming();
        let body = build_request_body(&request, true);
        assert_eq!(body["temperature"], 0.25);
        assert!(body.get("top_p").is_none());
        assert!(body.get("stop_sequences").is_none());
    }
    for top_p in [0.999, 0.5, 0.0, -0.0, -3.0, f64::MIN_POSITIVE, 5e-324] {
        let request = llm_request("m").api_params(params(finite(0.25), finite(top_p), &["a", "b"])).build_streaming();
        let body = build_request_body(&request, true);
        assert_eq!(body["top_p"], top_p);
        assert!(body.get("temperature").is_none());
        assert_eq!(body["stop_sequences"][1], "b");
    }
    let request = llm_request("m")
        .api_params(params(Double::Infinite { negative: false }, Double::NotANumber, &[]))
        .build_streaming();
    assert!(build_request_body(&request, true)["temperature"].is_null());
    let request = llm_request("m")
        .api_params(params(finite(1.0), Double::Infinite { negative: true }, &[]))
        .build_streaming();
    assert!(build_request_body(&request, true).get("top_p").unwrap().is_null());
}

#[test]
fn doubles_compare_as_floats_do() {
    let mut samples = vec![0.0, -0.0, 1.0, -1.0, 0.1, 0.9999999999999999, 1.0000000000000002];
    samples.extend([f64::MIN_POSITIVE, 5e-324, f64::MAX, f64::MIN, 2.5, -2.5, 1e-300, 1e300]);
    for x in samples {
        assert_eq!(finite(x).is_below_one(), x < 1.0, "{x}");
        assert_eq!(finite(x).to_json().render(), serde_json::Value::from(x).to_string());
    }
    assert!(Double::Finite(serde_json::Number::from(0u64)).is_below_one());
    assert!(!Double::Finite(serde_json::Number::from(1u64)).is_below_one());
    assert!(!Double::NotANumber.is_below_one());
    assert!(Double::Infinite { negative: true }.is_below_one());
    assert!(!Double::Infinite { negative: false }.is_below_one());
}

#[test]
fn tools_come_with_a_choice() {
    let request = llm_request("m")
        .tools(vec![
            LlmTool::WebSearch { search_context_size: WebSearchContextSize::Low },
            LlmTool::FileSearch { vector_store_ids: vec![], filters: None, max_num_results: Some(3) },
        ])
        .build_streaming();
    let body = build_request_body(&request, true);
    assert_eq!(body["tools"].as_array().unwrap().len(), 1);
    assert_eq!(
        body["tool_choice"].to_string(),
        r#"{"disable_parallel_tool_use":true,"type":"auto"}"#
    );
}

#[test]
fn extra_parameters_win() {
    let request = llm_request("m")
        .additional_params(item(r#"{"model":"other","thinking":{"type":"enabled"}}"#))
        .build_streaming();
    let body = build_request_body(&request, true);
    assert_eq!(body["model"], "other");
    assert_eq!(body["thinking"]["type"], "enabled");
    let request = llm_request("m").additional_params(item("[1]")).build_streaming();
    assert_eq!(build_request_body(&request, true)["model"], "m");
}

#[test]
fn messages_come_before_recorded_calls() {
    let request = llm_request("m")
        .message(LlmMessage::user("q"))
        .raw_input_items(vec![item(r#"{"type":"function_call"}"#), item(r#"{"type":"other"}"#)])
        .build_streaming();
    let body = build_request_body(&request, true);
    let roles: Vec<&str> =
        body["messages"].as_array().unwrap().iter().map(|m| m["role"].as_str().unwrap()).collect();
    assert_eq!(roles, ["user", "assistant"]);
    let only_system = LlmMessage { role: Role::System, content: vec![] };
    let request = llm_request("m").message(only_system).build_streaming();
    assert!(build_request_body(&request, true).get("messages").is_none());
    let empty = LlmMessage { role: Role::Assistant, content: vec![ContentPart::Image { file_id: "x".to_owned() }] };
    let request = llm_request("m").message(empty).build_streaming();
    assert_eq!(build_request_body(&request, true)["messages"][0]["content"].as_array().unwrap().len(), 0);
}
