//! Knowledge retrieval by vector store search.
//!
//! A search is `POST /{alias}/openai/vector_stores/{id}/search?api-version={version}`.

use std::sync::Arc;

use vstd::prelude::*;

use crate::json::{Json, JsonView, NumberView};
use crate::text::{has_part, join, join_texts, lemma_joined_part, str_eq, views};

verus! {

/// What is looked for, and where.
#[derive(Debug)]
pub struct RetrievalRequest {
    pub upstream_alias: String,
    pub vector_store_id: String,
    pub api_version: String,
    pub chat_id: String,
    pub query: String,
    pub top_k: u64,
}

/// A piece of a result.
#[derive(Debug)]
pub struct SearchContent {
    pub content_type: String,
    pub text: String,
}

/// A result of a search. The score is a single-precision number, given by its bits.
#[derive(Debug)]
pub struct SearchResult {
    pub file_id: String,
    pub filename: String,
    pub score_bits: u32,
    pub content: Vec<SearchContent>,
}

/// The response to a search.
#[derive(Debug)]
pub struct SearchResponse {
    pub data: Vec<SearchResult>,
}

/// A piece of knowledge that was found.
#[derive(Debug)]
pub struct RetrievedChunk {
    pub source_uri: String,
    pub title: String,
    pub text: String,
    pub score_bits: u32,
}

/// Why the file storage did not do what it was asked.
#[derive(Debug)]
pub enum FileStorageError {
    Rejected { code: String, message: String },
    Unavailable { message: String },
    /// Any other failure, by its text.
    Other { text: String },
}

/// Why nothing could be retrieved.
#[derive(Debug)]
pub enum RetrievalError {
    Rejected(String),
    Unavailable(String),
    Configuration(String),
}

/// Implements knowledge retrieval by vector store search.
#[derive(Debug)]
pub struct AzureKnowledgeRetriever<C> {
    pub client: Arc<C>,
}

impl<C> AzureKnowledgeRetriever<C> {
    /// A retriever that searches through `client`.
    pub fn new(client: Arc<C>) -> (r: Self)
        ensures
            r.client == client,
    {
        AzureKnowledgeRetriever { client }
    }
}

/// Where a search goes.
pub open spec fn search_path(req: RetrievalRequest) -> Seq<char> {
    "/"@ + req.upstream_alias@ + "/openai/vector_stores/"@ + req.vector_store_id@
        + "/search?api-version="@ + req.api_version@
}

/// Where a search goes.
pub fn search_uri(req: &RetrievalRequest) -> (r: String)
    ensures
        r@ == search_path(*req),
{
    let mut uri = "/".to_owned();
    uri.append(req.upstream_alias.as_str());
    uri.append("/openai/vector_stores/");
    uri.append(req.vector_store_id.as_str());
    uri.append("/search?api-version=");
    uri.append(req.api_version.as_str());
    uri
}

/// What a search asks for.
pub open spec fn search_json(req: RetrievalRequest) -> JsonView {
    JsonView::Object(
        Map::empty().insert("query"@, JsonView::Text(req.query@)).insert(
            "max_num_results"@,
            JsonView::Number(NumberView::Int(req.top_k as int)),
        ),
    )
}

/// What a search asks for.
pub fn search_body(req: &RetrievalRequest) -> (r: Json)
    ensures
        r@ == search_json(*req),
{
    let mut body = Json::object();
    body.set("query", Json::text(req.query.as_str()));
    body.set("max_num_results", Json::from_u64(req.top_k));
    body
}

/// The error of a retrieval whose search failed: what the storage rejects or cannot do now stays
/// that, and anything else is taken for a fault in the configuration.
pub fn retrieval_error(error: FileStorageError) -> (r: RetrievalError)
    ensures
        match error {
            FileStorageError::Rejected { message, .. } => r == RetrievalError::Rejected(message),
            FileStorageError::Unavailable { message } => r == RetrievalError::Unavailable(message),
            FileStorageError::Other { text } => r == RetrievalError::Configuration(text),
        },
{
    match error {
        FileStorageError::Rejected { message, .. } => RetrievalError::Rejected(message),
        FileStorageError::Unavailable { message } => RetrievalError::Unavailable(message),
        FileStorageError::Other { text } => RetrievalError::Configuration(text),
    }
}

/// The texts of the pieces that are text, in their order.
pub open spec fn text_pieces(content: Seq<SearchContent>) -> Seq<Seq<char>>
    decreases content.len(),
{
    if content.len() == 0 {
        Seq::empty()
    } else if content.last().content_type@ == "text"@ {
        text_pieces(content.drop_last()).push(content.last().text@)
    } else {
        text_pieces(content.drop_last())
    }
}

/// `chunk` is what a result comes to: the text pieces, a line each, and a link to the document.
pub open spec fn is_chunk_of(
    chunk: RetrievedChunk,
    result: SearchResult,
    chat_id: Seq<char>,
) -> bool {
    &&& chunk.source_uri@ == "kb://chat/"@ + chat_id + "/doc/"@ + result.file_id@
    &&& chunk.title@ == result.filename@
    &&& chunk.text@ == join_texts(text_pieces(result.content@), "\n"@)
    &&& chunk.score_bits == result.score_bits
}

fn join_pieces(content: &Vec<SearchContent>) -> (r: String)
    ensures
        r@ == join_texts(text_pieces(content@), "\n"@),
{
    let mut pieces: Vec<String> = Vec::new();
    let mut i: usize = 0;
    proof {
        assert(views(pieces@) =~= text_pieces(content@.take(0)));
    }
    while i < content.len()
        invariant
            i <= content@.len(),
            views(pieces@) == text_pieces(content@.take(i as int)),
        decreases content@.len() - i,
    {
        let ghost before = pieces@;
        proof {
            assert(content@.take(i + 1).drop_last() =~= content@.take(i as int));
            assert(content@.take(i + 1).last() == content@[i as int]);
        }
        if str_eq(content[i].content_type.as_str(), "text") {
            pieces.push(content[i].text.clone());
            proof {
                assert(views(pieces@) =~= views(before).push(content@[i as int].text@));
            }
        }
        i = i + 1;
    }
    proof {
        assert(content@.take(i as int) =~= content@);
    }
    join(&pieces, "\n")
}

/// The link to a document of a chat.
fn document_uri(chat_id: &str, file_id: &str) -> (r: String)
    ensures
        r@ == "kb://chat/"@ + chat_id@ + "/doc/"@ + file_id@,
{
    let mut uri = "kb://chat/".to_owned();
    uri.append(chat_id);
    uri.append("/doc/");
    uri.append(file_id);
    uri
}

/// What was found, a chunk for each result in the order of the response.
pub fn retrieved_chunks(response: &SearchResponse, chat_id: &str) -> (r: Vec<RetrievedChunk>)
    ensures
        r@.len() == response.data@.len(),
        forall|i: int|
            0 <= i < r@.len() ==> is_chunk_of(#[trigger] r@[i], response.data@[i], chat_id@),
{
    let mut chunks: Vec<RetrievedChunk> = Vec::new();
    let mut i: usize = 0;
    while i < response.data.len()
        invariant
            i <= response.data@.len(),
            chunks@.len() == i,
            forall|j: int|
                0 <= j < i ==> is_chunk_of(#[trigger] chunks@[j], response.data@[j], chat_id@),
        decreases response.data@.len() - i,
    {
        let result = &response.data[i];
        chunks.push(
            RetrievedChunk {
                source_uri: document_uri(chat_id, result.file_id.as_str()),
                title: result.filename.clone(),
                text: join_pieces(&result.content),
                score_bits: result.score_bits,
            },
        );
        i = i + 1;
    }
    chunks
}

/// What a retrieval whose search came back or failed returns.
pub fn retrieval_outcome(search: Result<SearchResponse, FileStorageError>, chat_id: &str) -> (r:
    Result<Vec<RetrievedChunk>, RetrievalError>)
    ensures
        match (search, r) {
            (Ok(response), Ok(chunks)) => {
                &&& chunks@.len() == response.data@.len()
                &&& forall|i: int|
                    0 <= i < chunks@.len() ==> is_chunk_of(
                        #[trigger] chunks@[i],
                        response.data@[i],
                        chat_id@,
                    )
            },
            (Err(FileStorageError::Rejected { message, .. }), Err(error)) => error
                == RetrievalError::Rejected(message),
            (Err(FileStorageError::Unavailable { message }), Err(error)) => error
                == RetrievalError::Unavailable(message),
            (Err(FileStorageError::Other { text }), Err(error)) => error
                == RetrievalError::Configuration(text),
            _ => false,
        },
{
    match search {
        Ok(response) => Ok(retrieved_chunks(&response, chat_id)),
        Err(error) => Err(retrieval_error(error)),
    }
}

/// The pieces of a result are taken in their order, all that are text and no others: lists of
/// pieces one behind the other give those of the first and then those of the second.
pub proof fn law_text_pieces_follow_the_content(a: Seq<SearchContent>, b: Seq<SearchContent>)
    ensures
        text_pieces(a + b) == text_pieces(a) + text_pieces(b),
        b.len() == 1 && b[0].content_type@ == "text"@ ==> text_pieces(b) == seq![b[0].text@],
        b.len() == 1 && b[0].content_type@ != "text"@ ==> text_pieces(b).len() == 0,
    decreases b.len(),
{
    if b.len() == 0 {
        assert(a + b =~= a);
        assert(text_pieces(a) + text_pieces(b) =~= text_pieces(a));
    } else {
        law_text_pieces_follow_the_content(a, b.drop_last());
        assert((a + b).drop_last() =~= a + b.drop_last());
        assert(text_pieces(a + b) =~= text_pieces(a) + text_pieces(b));
        if b.len() == 1 {
            assert(b.drop_last() =~= Seq::empty());
            assert(b[0].content_type@ == "text"@ ==> text_pieces(b) =~= seq![b[0].text@]);
        }
    }
}

/// A chunk links to the document of its chat, is titled by the file, holds every text piece of the
/// result on lines of its own, and keeps the score.
pub proof fn law_chunks_hold_their_result(
    chunk: RetrievedChunk,
    result: SearchResult,
    chat_id: Seq<char>,
    i: int,
)
    requires
        is_chunk_of(chunk, result, chat_id),
    ensures
        chunk.source_uri@ == "kb://chat/"@ + chat_id + "/doc/"@ + result.file_id@,
        chunk.title@ == result.filename@,
        chunk.score_bits == result.score_bits,
        chunk.text@ == join_texts(text_pieces(result.content@), seq!['\n']),
        0 <= i < text_pieces(result.content@).len() ==> has_part(
            chunk.text@,
            text_pieces(result.content@)[i],
        ),
{
    reveal_strlit("\n");
    assert("\n"@ =~= seq!['\n']);
    if 0 <= i < text_pieces(result.content@).len() {
        lemma_joined_part(text_pieces(result.content@), "\n"@, i);
    }
}

/// A search asks for what the request asks, as many results as it asks for, of the vector store
/// that it names, in the version that it names.
pub proof fn law_searches_ask_what_is_asked(req: RetrievalRequest)
    ensures
        search_json(req).member("query"@) == Some(JsonView::Text(req.query@)),
        search_json(req).member("max_num_results"@) == Some(
            JsonView::Number(NumberView::Int(req.top_k as int)),
        ),
        search_json(req)->Object_0.dom() == set!["query"@, "max_num_results"@],
        search_path(req) == seq!['/'] + req.upstream_alias@ + "/openai/vector_stores/"@
            + req.vector_store_id@ + "/search?api-version="@ + req.api_version@,
{
    reveal_strlit("/");
    assert("/"@ =~= seq!['/']);
    reveal_strlit("query");
    reveal_strlit("max_num_results");
    assert("query"@.len() == 5 && "max_num_results"@.len() == 15);
    assert(search_json(req)->Object_0.dom() =~= set!["query"@, "max_num_results"@]);
}

}
