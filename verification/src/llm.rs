//! The contract that every provider adapter shares: messages and tools on the way out,
//! translated events, results and errors on the way back.

use vstd::prelude::*;

use crate::double::Double;
use crate::json::{Json, JsonView};

verus! {

/// Who speaks in a message.
#[derive(Debug, Clone, Copy, PartialEq, Eq, Structural)]
pub enum Role {
    System,
    User,
    Assistant,
}

/// A piece of a message. An image is named by the primary provider's file id.
#[derive(Debug)]
pub enum ContentPart {
    Text { text: String },
    Image { file_id: String },
}

/// One message of the conversation.
#[derive(Debug)]
pub struct LlmMessage {
    pub role: Role,
    pub content: Vec<ContentPart>,
}

/// The message holds one piece, and that is the text.
pub open spec fn is_text_message(message: LlmMessage, role: Role, text: Seq<char>) -> bool {
    &&& message.role == role
    &&& message.content@.len() == 1
    &&& message.content@[0] matches ContentPart::Text { text: held } && held@ == text
}

fn text_message(role: Role, text: &str) -> (r: LlmMessage)
    ensures
        is_text_message(r, role, text@),
{
    let mut content: Vec<ContentPart> = Vec::new();
    content.push(ContentPart::Text { text: text.to_owned() });
    LlmMessage { role, content }
}

impl LlmMessage {
    /// A text that the user says.
    pub fn user(text: &str) -> (r: LlmMessage)
        ensures
            is_text_message(r, Role::User, text@),
    {
        text_message(Role::User, text)
    }

    /// A text that the assistant says.
    pub fn assistant(text: &str) -> (r: LlmMessage)
        ensures
            is_text_message(r, Role::Assistant, text@),
    {
        text_message(Role::Assistant, text)
    }
}

/// How much context a web search may bring in.
#[derive(Debug, Clone, Copy, PartialEq, Eq, Structural)]
pub enum WebSearchContextSize {
    Low,
    Medium,
    High,
}

/// A condition on file attributes, in the form that the search provider takes.
#[derive(Debug)]
pub struct FileSearchFilter {
    pub condition: Json,
}

/// A tool that the model may use.
#[derive(Debug)]
pub enum LlmTool {
    Function { name: String, description: String, parameters: Json },
    WebSearch { search_context_size: WebSearchContextSize },
    CodeInterpreter { file_ids: Vec<String> },
    FileSearch {
        vector_store_ids: Vec<String>,
        filters: Option<FileSearchFilter>,
        max_num_results: Option<u32>,
    },
}

/// The inference parameters of a model policy that the adapters read.
#[derive(Debug)]
pub struct ModelApiParams {
    pub temperature: Double,
    pub top_p: Double,
    pub stop: Vec<String>,
}

/// Tokens that one request used. `input_tokens` counts the cached ones too.
#[derive(Debug, Clone, Copy, PartialEq, Eq, Structural)]
pub struct Usage {
    pub input_tokens: i64,
    pub output_tokens: i64,
    pub cache_read_input_tokens: i64,
    pub cache_write_input_tokens: i64,
    pub reasoning_tokens: i64,
}

/// A source that an answer cites.
#[derive(Debug)]
pub struct Citation {
    pub source: String,
}

/// A provider's own words on an error, kept for operators and not for users.
#[derive(Debug)]
pub struct RawDetail(pub String);

/// Why a request to a provider failed.
#[derive(Debug)]
pub enum LlmProviderError {
    ProviderError { code: String, message: String, raw_detail: Option<RawDetail> },
    RateLimited { retry_after_secs: Option<u64> },
    InvalidResponse { detail: String },
}

/// What an error says.
pub enum ErrorView {
    ProviderError { code: Seq<char>, message: Seq<char>, raw_detail: Option<Seq<char>> },
    RateLimited { retry_after_secs: Option<u64> },
    InvalidResponse { detail: Seq<char> },
}

impl View for LlmProviderError {
    type V = ErrorView;

    open spec fn view(&self) -> ErrorView {
        match *self {
            LlmProviderError::ProviderError { code, message, raw_detail } => ErrorView::ProviderError {
                code: code@,
                message: message@,
                raw_detail: match raw_detail {
                    Some(raw) => Some(raw.0@),
                    None => None,
                },
            },
            LlmProviderError::RateLimited { retry_after_secs } => ErrorView::RateLimited {
                retry_after_secs,
            },
            LlmProviderError::InvalidResponse { detail } => ErrorView::InvalidResponse {
                detail: detail@,
            },
        }
    }
}

/// Where a tool's work stands.
#[derive(Debug, Clone, Copy, PartialEq, Eq, Structural)]
pub enum ToolPhase {
    Start,
    Done,
}

/// An event for the client.
#[derive(Debug)]
pub enum ClientSseEvent {
    Delta { kind: &'static str, content: String },
    Tool { phase: ToolPhase, name: &'static str, details: Json },
}

/// How a response ended.
#[allow(inconsistent_fields)]
#[derive(Debug)]
pub enum TerminalOutcome {
    Completed {
        usage: Usage,
        response_id: String,
        content: String,
        citations: Vec<Citation>,
        raw_response: Json,
    },
    Incomplete { reason: String, usage: Usage, partial_content: String },
    ToolUse { tool_use_id: String, name: String, input: Json },
    Failed { error: LlmProviderError, usage: Option<Usage>, partial_content: String },
}

/// What one provider event amounts to for the client.
#[derive(Debug)]
pub enum TranslatedEvent {
    Skip,
    Sse(ClientSseEvent),
    Terminal(TerminalOutcome),
}

/// What a translated event says.
#[allow(inconsistent_fields)]
pub enum TranslatedView {
    Skip,
    Delta { kind: Seq<char>, content: Seq<char> },
    Tool { phase: ToolPhase, name: Seq<char>, details: JsonView },
    Completed {
        usage: Usage,
        response_id: Seq<char>,
        content: Seq<char>,
        citations: Seq<Citation>,
        raw_response: JsonView,
    },
    Incomplete { reason: Seq<char>, usage: Usage, partial_content: Seq<char> },
    ToolUse { tool_use_id: Seq<char>, name: Seq<char>, input: JsonView },
    Failed { error: ErrorView, usage: Option<Usage>, partial_content: Seq<char> },
}

impl View for TranslatedEvent {
    type V = TranslatedView;

    open spec fn view(&self) -> TranslatedView {
        match *self {
            TranslatedEvent::Skip => TranslatedView::Skip,
            TranslatedEvent::Sse(ClientSseEvent::Delta { kind, content }) => TranslatedView::Delta {
                kind: kind@,
                content: content@,
            },
            TranslatedEvent::Sse(ClientSseEvent::Tool { phase, name, details }) => {
                TranslatedView::Tool { phase, name: name@, details: details@ }
            },
            TranslatedEvent::Terminal(
                TerminalOutcome::Completed { usage, response_id, content, citations, raw_response },
            ) => TranslatedView::Completed {
                usage,
                response_id: response_id@,
                content: content@,
                citations: citations@,
                raw_response: raw_response@,
            },
            TranslatedEvent::Terminal(
                TerminalOutcome::Incomplete { reason, usage, partial_content },
            ) => TranslatedView::Incomplete {
                reason: reason@,
                usage,
                partial_content: partial_content@,
            },
            TranslatedEvent::Terminal(TerminalOutcome::ToolUse { tool_use_id, name, input }) => {
                TranslatedView::ToolUse { tool_use_id: tool_use_id@, name: name@, input: input@ }
            },
            TranslatedEvent::Terminal(
                TerminalOutcome::Failed { error, usage, partial_content },
            ) => TranslatedView::Failed { error: error@, usage, partial_content: partial_content@ },
        }
    }
}

/// The answer to a request that was not streamed.
#[derive(Debug)]
pub struct ResponseResult {
    pub content: String,
    pub usage: Usage,
    pub response_id: String,
    pub citations: Vec<Citation>,
    pub raw_response: Json,
}

/// What an answer says.
pub struct ResultView {
    pub content: Seq<char>,
    pub usage: Usage,
    pub response_id: Seq<char>,
    pub citations: Seq<Citation>,
    pub raw_response: JsonView,
}

impl View for ResponseResult {
    type V = ResultView;

    open spec fn view(&self) -> ResultView {
        ResultView {
            content: self.content@,
            usage: self.usage,
            response_id: self.response_id@,
            citations: self.citations@,
            raw_response: self.raw_response@,
        }
    }
}

/// Marks a request whose response is streamed.
#[derive(Debug)]
pub struct Streaming;

/// Marks a request whose response comes as a whole.
#[derive(Debug)]
pub struct NonStreaming;

/// A function that takes provider ids out of a message may be called on any text.
pub open spec fn accepts_any_text<S: Fn(&str) -> String>(sanitize: S) -> bool {
    forall|text: &str| #[trigger] call_requires(sanitize, (text,))
}

/// `out` is what `sanitize` may return for `text`.
pub open spec fn sanitizes_to<S: Fn(&str) -> String>(sanitize: S, text: Seq<char>, out: Seq<char>) -> bool {
    exists|given: &str, returned: String| #[trigger] call_ensures(sanitize, (given,), returned)
        && given@ == text && returned@ == out
}

/// What a function that cleans texts up may return for a text is what it returns for it: where
/// it always returns the same, only that.
pub proof fn law_sanitized_text_is_what_the_function_returns<S: Fn(&str) -> String>(
    sanitize: S,
    clean: spec_fn(Seq<char>) -> Seq<char>,
    text: Seq<char>,
    out: Seq<char>,
)
    requires
        forall|given: &str, returned: String| #[trigger]
            call_ensures(sanitize, (given,), returned) ==> returned@ == clean(given@),
        sanitizes_to(sanitize, text, out),
    ensures
        out == clean(text),
{
}

/// A function accepts any text where it may be called on each.
pub proof fn law_what_accepts_any_text<S: Fn(&str) -> String>(sanitize: S, text: &str)
    requires
        accepts_any_text(sanitize),
    ensures
        call_requires(sanitize, (text,)),
{
}

/// An error says what its fields hold.
pub proof fn law_errors_say_what_they_hold(error: LlmProviderError)
    ensures
        match error {
            LlmProviderError::ProviderError { code, message, raw_detail } => {
                &&& error@ is ProviderError
                &&& error@->code == code@
                &&& error@->message == message@
                &&& raw_detail matches Some(raw) ==> error@->raw_detail == Some(raw.0@)
                &&& raw_detail is None ==> error@->raw_detail is None
            },
            LlmProviderError::RateLimited { retry_after_secs } => error@ == (
            ErrorView::RateLimited { retry_after_secs }),
            LlmProviderError::InvalidResponse { detail } => error@ == (
            ErrorView::InvalidResponse { detail: detail@ }),
        },
{
}

/// A translated event says what its fields hold.
pub proof fn law_translated_events_say_what_they_hold(event: TranslatedEvent)
    ensures
        match event {
            TranslatedEvent::Skip => event@ is Skip,
            TranslatedEvent::Sse(ClientSseEvent::Delta { kind, content }) => event@ == (
            TranslatedView::Delta { kind: kind@, content: content@ }),
            TranslatedEvent::Sse(ClientSseEvent::Tool { phase, name, details }) => event@ == (
            TranslatedView::Tool { phase, name: name@, details: details@ }),
            TranslatedEvent::Terminal(
                TerminalOutcome::Completed { usage, response_id, content, citations, raw_response },
            ) => event@ == (TranslatedView::Completed {
                usage,
                response_id: response_id@,
                content: content@,
                citations: citations@,
                raw_response: raw_response@,
            }),
            TranslatedEvent::Terminal(
                TerminalOutcome::Incomplete { reason, usage, partial_content },
            ) => event@ == (TranslatedView::Incomplete {
                reason: reason@,
                usage,
                partial_content: partial_content@,
            }),
            TranslatedEvent::Terminal(TerminalOutcome::ToolUse { tool_use_id, name, input }) => {
                event@ == (TranslatedView::ToolUse {
                    tool_use_id: tool_use_id@,
                    name: name@,
                    input: input@,
                })
            },
            TranslatedEvent::Terminal(
                TerminalOutcome::Failed { error, usage, partial_content },
            ) => event@ == (TranslatedView::Failed {
                error: error@,
                usage,
                partial_content: partial_content@,
            }),
        },
{
}

/// An answer says what its fields hold.
pub proof fn law_answers_say_what_they_hold(result: ResponseResult)
    ensures
        result@.content == result.content@,
        result@.usage == result.usage,
        result@.response_id == result.response_id@,
        result@.citations == result.citations@,
        result@.raw_response == result.raw_response@,
{
}

/// A text message holds the text, whole and alone, and is its speaker's.
pub proof fn law_text_messages_hold_the_text(message: LlmMessage, role: Role, text: Seq<char>)
    requires
        is_text_message(message, role, text),
    ensures
        message.role == role,
        message.content@.len() == 1,
        message.content@[0] matches ContentPart::Text { text: held } && held@ == text,
{
}

}
