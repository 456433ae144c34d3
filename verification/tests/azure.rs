//! Knowledge retrieval.

use std::sync::Arc;

use mini_chat_llm::azure::{
    retrieval_error, retrieval_outcome, retrieved_chunks, search_body, search_uri,
    AzureKnowledgeRetriever, FileStorageError, RetrievalError, RetrievalRequest, SearchContent,
    SearchResponse, SearchResult,
};

fn request() -> RetrievalRequest {
    RetrievalRequest {
        upstream_alias: "up".to_owned(),
        vector_store_id: "vs_1".to_owned(),
        api_version: "2025-03-01".to_owned(),
        chat_id: "c".to_owned(),
        query: "what?".to_owned(),
        top_k: 5,
    }
}

fn response() -> SearchResponse {
    let piece = |content_type: &str, text: &str| SearchContent {
        content_type: content_type.to_owned(),
        text: text.to_owned(),
    };
    SearchResponse {
        data: vec![
            SearchResult {
                file_id: "f1".to_owned(),
                filename: "a.pdf".to_owned(),
                score_bits: 0.5_f32.to_bits(),
                content: vec![piece("text", "x"), piece("image", "no"), piece("text", "y")],
            },
            SearchResult {
                file_id: "f2".to_owned(),
                filename: "b.pdf".to_owned(),
                score_bits: 0.25_f32.to_bits(),
                content: vec![],
            },
        ],
    }
}

#[test]
fn searches_go_to_the_vector_store() {
    assert_eq!(search_uri(&request()), "/up/openai/vector_stores/vs_1/search?api-version=2025-03-01");
    assert_eq!(search_body(&request()).render(), r#"{"max_num_results":5,"query":"what?"}"#);
    assert_eq!(*AzureKnowledgeRetriever::new(Arc::new(9_u8)).client, 9);
}

#[test]
fn results_become_chunks() {
    let chunks = retrieved_chunks(&response(), "chat_7");
    assert_eq!(chunks.len(), 2);
    assert_eq!(chunks[0].source_uri, "kb://chat/chat_7/doc/f1");
    assert_eq!(chunks[0].title, "a.pdf");
    assert_eq!(chunks[0].text, "x\ny");
    assert_eq!(f32::from_bits(chunks[0].score_bits), 0.5);
    assert_eq!(chunks[1].text, "");
    assert_eq!(chunks[1].source_uri, "kb://chat/chat_7/doc/f2");
}

#[test]
fn failures_are_told_apart() {
    let rejected = FileStorageError::Rejected { code: "c".to_owned(), message: "m".to_owned() };
    assert!(matches!(retrieval_error(rejected), RetrievalError::Rejected(m) if m == "m"));
    let unavailable = FileStorageError::Unavailable { message: "m".to_owned() };
    assert!(matches!(
        retrieval_outcome(Err(unavailable), "c"),
        Err(RetrievalError::Unavailable(m)) if m == "m"
    ));
    let other = FileStorageError::Other { text: "t".to_owned() };
    assert!(matches!(
        retrieval_outcome(Err(other), "c"),
        Err(RetrievalError::Configuration(t)) if t == "t"
    ));
    assert_eq!(retrieval_outcome(Ok(response()), "c").unwrap().len(), 2);
}
