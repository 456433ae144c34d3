//! Requests and their builder.

use mini_chat_llm::json::Json;
use mini_chat_llm::llm::{ContentPart, LlmMessage, LlmTool, Role};
use mini_chat_llm::request::{
    llm_request, serialize_feature, FeatureFlag, FileIdMap, LlmRequestBuilder, RequestMetadata,
    RequestType,
};

#[test]
fn features_are_joined() {
    assert_eq!(serialize_feature(&[]), "none");
    assert_eq!(serialize_feature(&[FeatureFlag::WebSearch]), "web_search");
    assert_eq!(
        serialize_feature(&[
            FeatureFlag::FileSearch,
            FeatureFlag::CodeInterpreter,
            FeatureFlag::WebSearch,
        ]),
        "file_search+code_interpreter+web_search"
    );
    assert_eq!(FeatureFlag::FileSearch.as_str(), "file_search");
}

#[test]
fn builder_keeps_what_it_is_given() {
    let request = llm_request("m")
        .message(LlmMessage::user("a"))
        .message(LlmMessage::assistant("b"))
        .system_instructions("s")
        .max_output_tokens(7)
        .tool(LlmTool::CodeInterpreter { file_ids: vec!["f".to_owned()] })
        .user_identity("t", "u")
        .metadata(RequestMetadata {
            tenant_id: "t".to_owned(),
            user_id: "u".to_owned(),
            chat_id: "c".to_owned(),
            request_type: RequestType::Chat,
            features: vec![FeatureFlag::WebSearch],
        })
        .max_tool_calls(3)
        .additional_params(Json::Null)
        .raw_input_items(vec![Json::Null])
        .build_streaming();
    assert_eq!(request.model(), "m");
    assert_eq!(request.messages().len(), 2);
    assert_eq!(request.messages()[1].role, Role::Assistant);
    assert!(matches!(&request.messages()[0].content[0], ContentPart::Text { text } if text == "a"));
    assert_eq!(request.tools().len(), 1);
    assert_eq!(request.system_instructions.as_deref(), Some("s"));
    assert_eq!(request.max_output_tokens, Some(7));
    assert_eq!(request.user_identity.as_ref().unwrap().user_id, "u");
    assert_eq!(request.metadata.as_ref().unwrap().chat_id, "c");
    assert_eq!(request.max_tool_calls, Some(3));
    assert!(matches!(request.additional_params, Some(Json::Null)));
    assert_eq!(request.raw_input_items.len(), 1);
}

#[test]
fn lists_replace_what_was_there() {
    let request = LlmRequestBuilder::new("m")
        .message(LlmMessage::user("a"))
        .messages(vec![LlmMessage::user("b"), LlmMessage::user("c")])
        .tool(LlmTool::CodeInterpreter { file_ids: vec![] })
        .tools(vec![])
        .build_non_streaming();
    assert_eq!(request.messages().len(), 2);
    assert!(request.tools().is_empty());
    assert!(request.user_identity.is_none());
}

#[test]
fn file_ids_are_looked_up() {
    let mut ids = FileIdMap::new();
    assert_eq!(ids.get("a"), None);
    ids.insert("a", "1");
    ids.insert("b", "2");
    ids.insert("a", "3");
    assert_eq!(ids.get("a"), Some("3"));
    assert_eq!(ids.get("b"), Some("2"));
}

#[test]
fn recorded_items_accumulate() {
    let builder = llm_request("m")
        .raw_input_items(vec![Json::text("a"), Json::text("b")])
        .raw_input_items(vec![Json::text("c")]);
    let request = builder.build_streaming();
    let texts: Vec<&str> = request.raw_input_items.iter().map(|j| j.as_str().unwrap()).collect();
    assert_eq!(texts, ["a", "b", "c"]);
    let request = llm_request("m")
        .raw_input_items(vec![Json::text("a")])
        .clear_raw_input_items()
        .raw_input_items(vec![Json::text("c")])
        .build_streaming();
    assert_eq!(request.raw_input_items.len(), 1);
}

#[test]
fn clones_hold_the_same() {
    let metadata = RequestMetadata {
        tenant_id: "t".to_owned(),
        user_id: "u".to_owned(),
        chat_id: "c".to_owned(),
        request_type: RequestType::DocSummary,
        features: vec![FeatureFlag::FileSearch, FeatureFlag::WebSearch],
    };
    let copy = metadata.clone();
    assert_eq!(copy.tenant_id, "t");
    assert_eq!(copy.user_id, "u");
    assert_eq!(copy.chat_id, "c");
    assert_eq!(copy.request_type, RequestType::DocSummary);
    assert_eq!(copy.features, metadata.features);
}
