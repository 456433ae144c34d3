//! Converting recorded tool calls.

use mini_chat_llm::anthropic::convert::{convert_item, tool_result_content};
use mini_chat_llm::json::Json;

fn value(json: &Json) -> serde_json::Value {
    serde_json::from_str(&json.render()).unwrap()
}

fn parse_tool_result_content(output: &str) -> serde_json::Value {
    value(&mini_chat_llm::anthropic::convert::parse_tool_result_content(output))
}

fn convert_raw_input_items(items: &[Json]) -> Vec<serde_json::Value> {
    let messages = mini_chat_llm::anthropic::convert::convert_raw_input_items(items);
    messages.iter().map(value).collect()
}

/// One block of text around `text`.
fn text_block(text: &str) -> serde_json::Value {
    let mut block = serde_json::Map::new();
    block.insert("type".to_owned(), "text".into());
    block.insert("text".to_owned(), text.into());
    serde_json::Value::Array(vec![serde_json::Value::Object(block)])
}

/// A recorded output of a tool call.
fn output_item(call_id: &str, output: &str) -> Json {
    let mut made = Json::object();
    made.set("type", Json::text("function_call_output"));
    made.set("call_id", Json::text(call_id));
    made.set("output", Json::text(output));
    made
}

fn item(text: &str) -> Json {
    Json::parse(text).unwrap()
}

#[test]
fn parse_tool_result_content_wraps_plain_string() {
    let result = parse_tool_result_content("hello world");
    assert_eq!(
        result,
        text_block("hello world")
    );
}

#[test]
fn parse_tool_result_content_passes_through_typed_array() {
    let output = r#"[{"type":"search_result","source":"s3://bucket/file.pdf","title":"Doc","content":[{"type":"text","text":"relevant text"}]}]"#;
    let result = parse_tool_result_content(output);
    let arr = result.as_array().unwrap();
    assert_eq!(arr.len(), 1);
    assert_eq!(arr[0]["type"], "search_result");
    assert_eq!(arr[0]["source"], "s3://bucket/file.pdf");
}

#[test]
fn parse_tool_result_content_wraps_array_without_type_fields() {
    let output = r#"[{"value": 1}, {"value": 2}]"#;
    let result = parse_tool_result_content(output);
    assert_eq!(
        result,
        text_block(output)
    );
}

#[test]
fn parse_tool_result_content_wraps_empty_string() {
    let result = parse_tool_result_content("");
    assert_eq!(result, text_block(""));
}

#[test]
fn convert_raw_input_items_produces_anthropic_messages() {
    let items = vec![
        item(
            r#"{
            "type": "function_call",
            "call_id": "toolu_abc",
            "name": "search_knowledge",
            "arguments": "{\"query\":\"test query\"}"
        }"#,
        ),
        item(
            r#"{
            "type": "function_call_output",
            "call_id": "toolu_abc",
            "output": "some result"
        }"#,
        ),
    ];
    let messages = convert_raw_input_items(&items);
    assert_eq!(messages.len(), 2);

    let assistant = &messages[0];
    assert_eq!(assistant["role"], "assistant");
    let content = assistant["content"].as_array().unwrap();
    assert_eq!(content[0]["type"], "tool_use");
    assert_eq!(content[0]["id"], "toolu_abc");
    assert_eq!(content[0]["name"], "search_knowledge");
    assert_eq!(content[0]["input"]["query"], "test query");

    let user = &messages[1];
    assert_eq!(user["role"], "user");
    let ucontent = user["content"].as_array().unwrap();
    assert_eq!(ucontent[0]["type"], "tool_result");
    assert_eq!(ucontent[0]["tool_use_id"], "toolu_abc");
}

#[test]
fn convert_raw_input_items_empty_returns_empty() {
    assert_eq!(convert_raw_input_items(&[]).len(), 0);
}

#[test]
fn convert_raw_input_items_unknown_type_ignored() {
    let items = vec![item(r#"{"type": "some_future_type", "data": "x"}"#)];
    assert_eq!(convert_raw_input_items(&items).len(), 0);
}

#[test]
fn convert_raw_input_items_multiple_calls_grouped() {
    let items = vec![
        item(r#"{"type":"function_call","call_id":"c1","name":"search_knowledge","arguments":"{}"}"#),
        item(r#"{"type":"function_call","call_id":"c2","name":"search_knowledge","arguments":"{}"}"#),
        item(r#"{"type":"function_call_output","call_id":"c1","output":"result1"}"#),
        item(r#"{"type":"function_call_output","call_id":"c2","output":"result2"}"#),
    ];
    let messages = convert_raw_input_items(&items);
    // Both function_calls → one assistant message with 2 tool_use blocks
    // Both function_call_outputs → one user message with 2 tool_result blocks
    assert_eq!(messages.len(), 2);
    assert_eq!(messages[0]["role"], "assistant");
    assert_eq!(messages[0]["content"].as_array().unwrap().len(), 2);
    assert_eq!(messages[1]["role"], "user");
    assert_eq!(messages[1]["content"].as_array().unwrap().len(), 2);
}

#[test]
fn convert_raw_input_items_search_result_content_forwarded_verbatim() {
    let search_result_json = r#"[{"type":"search_result","source":"uri","title":"T","content":[{"type":"text","text":"chunk"}]}]"#;
    let items = vec![
        item(r#"{"type":"function_call","call_id":"c1","name":"search_knowledge","arguments":"{}"}"#),
        output_item("c1", search_result_json),
    ];
    let messages = convert_raw_input_items(&items);
    let user_content = &messages[1]["content"][0];
    assert_eq!(user_content["type"], "tool_result");
    // content should be an array of search_result blocks, not a text wrapper
    let inner = user_content["content"].as_array().unwrap();
    assert_eq!(inner[0]["type"], "search_result");
}

#[test]
fn missing_fields_have_defaults() {
    let messages = convert_raw_input_items(&[
        item(r#"{"type":"function_call"}"#),
        item(r#"{"type":"function_call","arguments":"no json","call_id":7}"#),
        item(r#"{"type":"function_call_output"}"#),
    ]);
    assert_eq!(messages.len(), 2);
    let calls = messages[0]["content"].as_array().unwrap();
    assert_eq!(calls[0].to_string(), r#"{"id":"","input":{},"name":"","type":"tool_use"}"#);
    assert_eq!(calls[1].to_string(), r#"{"id":"","input":{},"name":"","type":"tool_use"}"#);
    assert_eq!(
        messages[1]["content"][0].to_string(),
        r#"{"content":[{"text":"","type":"text"}],"tool_use_id":"","type":"tool_result"}"#
    );
}

#[test]
fn speakers_alternate() {
    let call = || item(r#"{"type":"function_call","call_id":"c","name":"n","arguments":"[1]"}"#);
    let messages = convert_raw_input_items(&[
        output_item("o0", "x"),
        call(),
        item("7"),
        call(),
        output_item("o1", "y"),
        call(),
    ]);
    let roles: Vec<&str> = messages.iter().map(|m| m["role"].as_str().unwrap()).collect();
    assert_eq!(roles, ["user", "assistant", "user", "assistant"]);
    assert_eq!(messages[1]["content"].as_array().unwrap().len(), 2);
    assert_eq!(messages[1]["content"][0]["input"][0], 1);
    let grown = convert_raw_input_items(&[output_item("o0", "x")]);
    assert_eq!(grown[0], messages[0]);
}

#[test]
fn tool_results_take_the_outside_reading() {
    assert_eq!(value(&tool_result_content("raw", Err("x".to_owned()))), text_block("raw"));
    assert_eq!(value(&tool_result_content("[]", Json::parse("[]"))).to_string(), "[]");
    assert_eq!(parse_tool_result_content("[]").to_string(), "[]");
    assert_eq!(value(&tool_result_content("{}", Json::parse("{}"))), text_block("{}"));
    let mixed = r#"[{"type":"a"},7]"#;
    assert_eq!(value(&tool_result_content(mixed, Json::parse(mixed))), text_block(mixed));
    let typed = r#"[{"type":null}]"#;
    assert_eq!(value(&tool_result_content(typed, Json::parse(typed))).to_string(), typed);
    assert!(convert_item(&item(r#"{"type":"message"}"#)).is_none());
}
