//! The state machine that turns the events of one response into the shared contract.

use vstd::prelude::*;

use crate::anthropic::event::{AnthropicEvent, EventView, StreamingError};
use crate::json::{parsed_text, reading_view, Json, JsonView};
use crate::llm::{
    accepts_any_text, sanitizes_to, ClientSseEvent, ErrorView, LlmProviderError, RawDetail,
    TerminalOutcome, ToolPhase, TranslatedEvent, TranslatedView, Usage,
};
use crate::text::{has_prefix, starts_with, str_eq};

verus! {

/// What is carried from event to event.
#[derive(Debug)]
pub struct AnthropicStreamState {
    pub message_id: String,
    pub accumulated_text: String,
    pub tool_use_id: String,
    pub tool_name: String,
    pub tool_input_json: String,
    /// The shared name of the server tool whose block is open.
    pub current_server_tool: Option<&'static str>,
    /// Where the block of that server tool stands.
    pub server_tool_index: u32,
    pub input_tokens: i64,
    pub output_tokens: i64,
    pub cache_read_input_tokens: i64,
    pub cache_write_input_tokens: i64,
    pub stop_reason: String,
}

/// What the state says.
pub struct StateView {
    pub message_id: Seq<char>,
    pub accumulated_text: Seq<char>,
    pub tool_use_id: Seq<char>,
    pub tool_name: Seq<char>,
    pub tool_input_json: Seq<char>,
    pub current_server_tool: Option<Seq<char>>,
    pub server_tool_index: u32,
    pub input_tokens: i64,
    pub output_tokens: i64,
    pub cache_read_input_tokens: i64,
    pub cache_write_input_tokens: i64,
    pub stop_reason: Seq<char>,
}

impl View for AnthropicStreamState {
    type V = StateView;

    open spec fn view(&self) -> StateView {
        StateView {
            message_id: self.message_id@,
            accumulated_text: self.accumulated_text@,
            tool_use_id: self.tool_use_id@,
            tool_name: self.tool_name@,
            tool_input_json: self.tool_input_json@,
            current_server_tool: match self.current_server_tool {
                Some(name) => Some(name@),
                None => None,
            },
            server_tool_index: self.server_tool_index,
            input_tokens: self.input_tokens,
            output_tokens: self.output_tokens,
            cache_read_input_tokens: self.cache_read_input_tokens,
            cache_write_input_tokens: self.cache_write_input_tokens,
            stop_reason: self.stop_reason@,
        }
    }
}

/// The state before the first event.
pub open spec fn initial_state() -> StateView {
    StateView {
        message_id: Seq::empty(),
        accumulated_text: Seq::empty(),
        tool_use_id: Seq::empty(),
        tool_name: Seq::empty(),
        tool_input_json: Seq::empty(),
        current_server_tool: None,
        server_tool_index: 0,
        input_tokens: 0,
        output_tokens: 0,
        cache_read_input_tokens: 0,
        cache_write_input_tokens: 0,
        stop_reason: Seq::empty(),
    }
}

impl Default for AnthropicStreamState {
    fn default() -> (r: AnthropicStreamState)
        ensures
            r@ == initial_state(),
    {
        AnthropicStreamState {
            message_id: String::new(),
            accumulated_text: String::new(),
            tool_use_id: String::new(),
            tool_name: String::new(),
            tool_input_json: String::new(),
            current_server_tool: None,
            server_tool_index: 0,
            input_tokens: 0,
            output_tokens: 0,
            cache_read_input_tokens: 0,
            cache_write_input_tokens: 0,
            stop_reason: String::new(),
        }
    }
}

/// The name by which the client hears of a function tool.
pub open spec fn shared_tool_name(name: Seq<char>) -> Seq<char> {
    if name == "search_knowledge"@ {
        "search_knowledge"@
    } else if name == "load_files"@ {
        "load_files"@
    } else {
        "unknown_tool"@
    }
}

/// The name by which the client hears of a server tool, whatever version its own name ends in.
/// Code execution goes by the name that it has with every provider.
pub open spec fn shared_server_tool_name(name: Seq<char>) -> Option<Seq<char>> {
    if has_prefix(name, "web_search"@) {
        Some("web_search"@)
    } else if has_prefix(name, "code_execution"@) {
        Some("code_interpreter"@)
    } else {
        None
    }
}

/// The server tool whose block ends where the block at this place stops.
pub open spec fn ended_tool(s: StateView, index: u32) -> Option<Seq<char>> {
    if s.server_tool_index == index {
        s.current_server_tool
    } else {
        None
    }
}

/// The state after an event.
pub open spec fn next_state(s: StateView, event: EventView) -> StateView {
    match event {
        EventView::MessageStart {
            message_id,
            input_tokens,
            cache_read_input_tokens,
            cache_creation_input_tokens,
        } => StateView {
            message_id,
            input_tokens,
            cache_read_input_tokens,
            cache_write_input_tokens: cache_creation_input_tokens,
            ..s
        },
        EventView::ContentBlockStartToolUse { id, name, .. } => StateView {
            tool_use_id: id,
            tool_name: name,
            tool_input_json: Seq::empty(),
            ..s
        },
        EventView::ContentBlockStartServerToolUse { index, name } => match shared_server_tool_name(
            name,
        ) {
            Some(shared) => StateView {
                current_server_tool: Some(shared),
                server_tool_index: index,
                ..s
            },
            None => s,
        },
        EventView::ContentBlockDeltaText { text, .. } => StateView {
            accumulated_text: s.accumulated_text + text,
            ..s
        },
        EventView::ContentBlockDeltaInputJson { partial_json, .. } => StateView {
            tool_input_json: s.tool_input_json + partial_json,
            ..s
        },
        EventView::ContentBlockStop { index } => match ended_tool(s, index) {
            Some(_) => StateView { current_server_tool: None, ..s },
            None => s,
        },
        EventView::MessageDelta {
            stop_reason,
            output_tokens,
            cache_read_input_tokens,
            cache_creation_input_tokens,
        } => StateView {
            stop_reason,
            output_tokens,
            cache_read_input_tokens: if cache_read_input_tokens != 0 {
                cache_read_input_tokens
            } else {
                s.cache_read_input_tokens
            },
            cache_write_input_tokens: if cache_creation_input_tokens != 0 {
                cache_creation_input_tokens
            } else {
                s.cache_write_input_tokens
            },
            ..s
        },
        _ => s,
    }
}

/// The sums that make up the input total fit in 64 bits.
pub open spec fn total_fits(input: i64, cache_read: i64, cache_write: i64) -> bool {
    &&& i64::MIN <= input + cache_read <= i64::MAX
    &&& i64::MIN <= input + cache_read + cache_write <= i64::MAX
}

/// The usage with the cached tokens counted into the input, as other providers report it.
pub open spec fn normalized_usage(input: i64, output: i64, cache_read: i64, cache_write: i64) -> Usage {
    Usage {
        input_tokens: (input + cache_read + cache_write) as i64,
        output_tokens: output,
        cache_read_input_tokens: cache_read,
        cache_write_input_tokens: cache_write,
        reasoning_tokens: 0,
    }
}

/// The usage that the state has collected.
pub open spec fn usage_of(s: StateView) -> Usage {
    normalized_usage(
        s.input_tokens,
        s.output_tokens,
        s.cache_read_input_tokens,
        s.cache_write_input_tokens,
    )
}

/// How the response ends, given the input that its tool call reads as.
pub open spec fn outcome_of(s: StateView, tool_input: JsonView) -> TranslatedView {
    if s.stop_reason == "tool_use"@ {
        TranslatedView::ToolUse {
            tool_use_id: s.tool_use_id,
            name: s.tool_name,
            input: tool_input,
        }
    } else if s.stop_reason == "max_tokens"@ {
        TranslatedView::Incomplete {
            reason: "max_tokens"@,
            usage: usage_of(s),
            partial_content: s.accumulated_text,
        }
    } else {
        TranslatedView::Completed {
            usage: usage_of(s),
            response_id: s.message_id,
            content: s.accumulated_text,
            citations: Seq::empty(),
            raw_response: JsonView::Object(Map::empty().insert("id"@, JsonView::Text(s.message_id))),
        }
    }
}

/// What an event amounts to for the client, given the input that a finished tool call reads as
/// and the sanitized form of an error's message.
pub open spec fn translated(
    s: StateView,
    event: EventView,
    tool_input: JsonView,
    sanitized: Seq<char>,
) -> TranslatedView {
    match event {
        EventView::ContentBlockStartToolUse { name, .. } => TranslatedView::Tool {
            phase: ToolPhase::Start,
            name: shared_tool_name(name),
            details: JsonView::empty_object(),
        },
        EventView::ContentBlockStartServerToolUse { name, .. } => match shared_server_tool_name(
            name,
        ) {
            Some(shared) => TranslatedView::Tool {
                phase: ToolPhase::Start,
                name: shared,
                details: JsonView::empty_object(),
            },
            None => TranslatedView::Skip,
        },
        EventView::ContentBlockDeltaText { text, .. } => TranslatedView::Delta {
            kind: "text"@,
            content: text,
        },
        EventView::ContentBlockStop { index } => match ended_tool(s, index) {
            Some(name) => TranslatedView::Tool {
                phase: ToolPhase::Done,
                name,
                details: JsonView::empty_object(),
            },
            None => TranslatedView::Skip,
        },
        EventView::MessageStop => outcome_of(s, tool_input),
        EventView::Error { error_type, message } => TranslatedView::Failed {
            error: ErrorView::ProviderError {
                code: error_type,
                message: sanitized,
                raw_detail: Some(message),
            },
            usage: None,
            partial_content: s.accumulated_text,
        },
        _ => TranslatedView::Skip,
    }
}

/// The input of a tool call: what its text reads as, and no input where it is no JSON.
pub open spec fn input_of_reading(reading: Result<JsonView, Seq<char>>) -> JsonView {
    match reading {
        Ok(v) => v,
        Err(_) => JsonView::empty_object(),
    }
}

/// The input of a tool call: what its text reads as, and no input where it is no JSON.
pub fn tool_input(reading: Result<Json, String>) -> (r: Json)
    ensures
        r@ == input_of_reading(reading_view(reading)),
{
    match reading {
        Ok(v) => v,
        Err(_) => Json::object(),
    }
}

fn tool_event(phase: ToolPhase, name: &'static str) -> (r: TranslatedEvent)
    ensures
        r@ == (TranslatedView::Tool { phase, name: name@, details: JsonView::empty_object() }),
{
    TranslatedEvent::Sse(ClientSseEvent::Tool { phase, name, details: Json::object() })
}

fn static_tool_name(name: &str) -> (r: &'static str)
    ensures
        r@ == shared_tool_name(name@),
{
    if str_eq(name, "search_knowledge") {
        "search_knowledge"
    } else if str_eq(name, "load_files") {
        "load_files"
    } else {
        "unknown_tool"
    }
}

fn static_server_tool_name(name: &str) -> (r: Option<&'static str>)
    ensures
        match r {
            Some(shared) => shared_server_tool_name(name@) == Some(shared@),
            None => shared_server_tool_name(name@) is None,
        },
{
    if starts_with(name, "web_search") {
        Some("web_search")
    } else if starts_with(name, "code_execution") {
        Some("code_interpreter")
    } else {
        None
    }
}

/// Counts the cached tokens into the input.
pub fn normalize_usage(input: i64, output: i64, cache_read: i64, cache_write: i64) -> (r: Usage)
    requires
        total_fits(input, cache_read, cache_write),
    ensures
        r == normalized_usage(input, output, cache_read, cache_write),
{
    Usage {
        input_tokens: input + cache_read + cache_write,
        output_tokens: output,
        cache_read_input_tokens: cache_read,
        cache_write_input_tokens: cache_write,
        reasoning_tokens: 0,
    }
}

/// Whether the sums that make up the input total fit in 64 bits.
pub fn check_total(input: i64, cache_read: i64, cache_write: i64) -> (r: bool)
    ensures
        r == total_fits(input, cache_read, cache_write),
{
    match input.checked_add(cache_read) {
        Some(part) => part.checked_add(cache_write).is_some(),
        None => false,
    }
}

impl AnthropicStreamState {
    /// The collected token counts have a total that fits in 64 bits.
    pub open spec fn usage_fits(self) -> bool {
        total_fits(
            self.input_tokens,
            self.cache_read_input_tokens,
            self.cache_write_input_tokens,
        )
    }

    /// Whether the collected token counts have a total that fits in 64 bits.
    pub fn check_usage(&self) -> (r: bool)
        ensures
            r == self.usage_fits(),
    {
        check_total(
            self.input_tokens,
            self.cache_read_input_tokens,
            self.cache_write_input_tokens,
        )
    }

    /// How the response ends, given the input that its tool call reads as.
    fn finish(&self, tool_input: Json) -> (r: TranslatedEvent)
        requires
            self.usage_fits(),
        ensures
            r@ == outcome_of(self@, tool_input@),
    {
        let usage = normalize_usage(
            self.input_tokens,
            self.output_tokens,
            self.cache_read_input_tokens,
            self.cache_write_input_tokens,
        );
        if str_eq(self.stop_reason.as_str(), "tool_use") {
            TranslatedEvent::Terminal(
                TerminalOutcome::ToolUse {
                    tool_use_id: self.tool_use_id.clone(),
                    name: self.tool_name.clone(),
                    input: tool_input,
                },
            )
        } else if str_eq(self.stop_reason.as_str(), "max_tokens") {
            TranslatedEvent::Terminal(
                TerminalOutcome::Incomplete {
                    reason: "max_tokens".to_owned(),
                    usage,
                    partial_content: self.accumulated_text.clone(),
                },
            )
        } else {
            let mut raw_response = Json::object();
            raw_response.set("id", Json::text(self.message_id.as_str()));
            TranslatedEvent::Terminal(
                TerminalOutcome::Completed {
                    usage,
                    response_id: self.message_id.clone(),
                    content: self.accumulated_text.clone(),
                    citations: Vec::new(),
                    raw_response,
                },
            )
        }
    }
}

/// Translates one event, given the input that a finished tool call reads as and the sanitized
/// form of an error's message.
pub fn translate_with(
    event: &AnthropicEvent,
    state: &mut AnthropicStreamState,
    tool_input: Json,
    sanitized: String,
) -> (r: TranslatedEvent)
    requires
        event@ is MessageStop ==> old(state).usage_fits(),
    ensures
        final(state)@ == next_state(old(state)@, event@),
        r@ == translated(old(state)@, event@, tool_input@, sanitized@),
{
    match event {
        AnthropicEvent::MessageStart {
            message_id,
            input_tokens,
            cache_read_input_tokens,
            cache_creation_input_tokens,
        } => {
            state.message_id = message_id.clone();
            state.input_tokens = *input_tokens;
            state.cache_read_input_tokens = *cache_read_input_tokens;
            state.cache_write_input_tokens = *cache_creation_input_tokens;
            TranslatedEvent::Skip
        },
        AnthropicEvent::ContentBlockStartText { .. } => TranslatedEvent::Skip,
        AnthropicEvent::ContentBlockStartToolUse { id, name, .. } => {
            state.tool_use_id = id.clone();
            state.tool_name = name.clone();
            state.tool_input_json = String::new();
            tool_event(ToolPhase::Start, static_tool_name(name.as_str()))
        },
        AnthropicEvent::ContentBlockStartServerToolUse { index, name } => {
            match static_server_tool_name(name.as_str()) {
                Some(shared) => {
                    state.current_server_tool = Some(shared);
                    state.server_tool_index = *index;
                    tool_event(ToolPhase::Start, shared)
                },
                None => TranslatedEvent::Skip,
            }
        },
        AnthropicEvent::ContentBlockDeltaText { text, .. } => {
            state.accumulated_text.append(text.as_str());
            TranslatedEvent::Sse(ClientSseEvent::Delta { kind: "text", content: text.clone() })
        },
        AnthropicEvent::ContentBlockDeltaInputJson { partial_json, .. } => {
            state.tool_input_json.append(partial_json.as_str());
            TranslatedEvent::Skip
        },
        AnthropicEvent::ContentBlockStop { index } => {
            if *index != state.server_tool_index {
                return TranslatedEvent::Skip;
            }
            match state.current_server_tool.take() {
                Some(name) => tool_event(ToolPhase::Done, name),
                None => TranslatedEvent::Skip,
            }
        },
        AnthropicEvent::MessageDelta {
            stop_reason,
            output_tokens,
            cache_read_input_tokens,
            cache_creation_input_tokens,
        } => {
            state.stop_reason = stop_reason.clone();
            state.output_tokens = *output_tokens;
            // Cache totals are echoed only when they are not zero; those from the start of the
            // message stay where the delta omits them.
            if *cache_read_input_tokens != 0 {
                state.cache_read_input_tokens = *cache_read_input_tokens;
            }
            if *cache_creation_input_tokens != 0 {
                state.cache_write_input_tokens = *cache_creation_input_tokens;
            }
            TranslatedEvent::Skip
        },
        AnthropicEvent::MessageStop => state.finish(tool_input),
        AnthropicEvent::Ping => TranslatedEvent::Skip,
        AnthropicEvent::Unknown { .. } => TranslatedEvent::Skip,
        AnthropicEvent::Error { error_type, message } => TranslatedEvent::Terminal(
            TerminalOutcome::Failed {
                error: LlmProviderError::ProviderError {
                    code: error_type.clone(),
                    message: sanitized,
                    raw_detail: Some(RawDetail(message.clone())),
                },
                usage: None,
                partial_content: state.accumulated_text.clone(),
            },
        ),
    }
}

/// Translates one event into the shared contract. `sanitize` takes provider ids out of a
/// message before a user sees it.
pub fn translate_anthropic_event<S: Fn(&str) -> String>(
    event: &AnthropicEvent,
    state: &mut AnthropicStreamState,
    sanitize: &S,
) -> (r: TranslatedEvent)
    requires
        event@ is MessageStop ==> old(state).usage_fits(),
        accepts_any_text(*sanitize),
    ensures
        final(state)@ == next_state(old(state)@, event@),
        match event@ {
            EventView::Error { message, .. } => exists|sanitized: Seq<char>| #[trigger]
                sanitizes_to(*sanitize, message, sanitized) && r@ == translated(
                    old(state)@,
                    event@,
                    JsonView::empty_object(),
                    sanitized,
                ),
            _ => r@ == translated(
                old(state)@,
                event@,
                input_of_reading(parsed_text(old(state)@.tool_input_json)),
                Seq::empty(),
            ),
        },
{
    match event {
        AnthropicEvent::MessageStop => {
            if str_eq(state.stop_reason.as_str(), "tool_use") {
                let input = tool_input(Json::parse(state.tool_input_json.as_str()));
                translate_with(event, state, input, String::new())
            } else {
                translate_with(event, state, Json::object(), String::new())
            }
        },
        AnthropicEvent::Error { message, .. } => {
            let given: &str = message.as_str();
            let sanitized = sanitize(given);
            let ghost out = sanitized@;
            proof {
                assert(sanitizes_to(*sanitize, message@, out));
            }
            translate_with(event, state, Json::object(), sanitized)
        },
        _ => translate_with(event, state, Json::object(), String::new()),
    }
}

/// What one step of the stream returned: an event for the client, or the detail of the error.
pub open spec fn step_view(r: Result<TranslatedEvent, StreamingError>) -> Result<
    TranslatedView,
    Seq<char>,
> {
    match r {
        Ok(event) => Ok(event@),
        Err(StreamingError::ServerEventsParse { detail }) => Err(detail@),
    }
}

/// One step of the stream: an event is translated, and an error is handed on and leaves the
/// state as it is.
pub fn scan_event<S: Fn(&str) -> String>(
    result: Result<AnthropicEvent, StreamingError>,
    state: &mut AnthropicStreamState,
    sanitize: &S,
) -> (r: Result<TranslatedEvent, StreamingError>)
    requires
        result matches Ok(event) ==> (event@ is MessageStop ==> old(state).usage_fits()),
        accepts_any_text(*sanitize),
    ensures
        match result {
            Ok(event) => {
                &&& final(state)@ == next_state(old(state)@, event@)
                &&& match event@ {
                    EventView::Error { message, .. } => exists|sanitized: Seq<char>| #[trigger]
                        sanitizes_to(*sanitize, message, sanitized) && step_view(r) == Ok::<
                            TranslatedView,
                            Seq<char>,
                        >(
                            translated(
                                old(state)@,
                                event@,
                                JsonView::empty_object(),
                                sanitized,
                            ),
                        ),
                    _ => step_view(r) == Ok::<TranslatedView, Seq<char>>(
                        translated(
                            old(state)@,
                            event@,
                            input_of_reading(parsed_text(old(state)@.tool_input_json)),
                            Seq::empty(),
                        ),
                    ),
                }
            },
            Err(error) => {
                &&& final(state)@ == old(state)@
                &&& r == Err::<TranslatedEvent, StreamingError>(error)
            },
        },
{
    match result {
        Ok(event) => Ok(translate_anthropic_event(&event, state, sanitize)),
        Err(error) => Err(error),
    }
}

/// The state after a sequence of events.
pub open spec fn state_after(s: StateView, events: Seq<EventView>) -> StateView
    decreases events.len(),
{
    if events.len() == 0 {
        s
    } else {
        next_state(state_after(s, events.drop_last()), events.last())
    }
}

/// What the event at place `i` amounts to for the client.
pub open spec fn translated_at(
    s: StateView,
    events: Seq<EventView>,
    i: int,
    tool_input: JsonView,
    sanitized: Seq<char>,
) -> TranslatedView {
    translated(state_after(s, events.take(i)), events[i], tool_input, sanitized)
}

/// The text that a translated event hands to the client.
pub open spec fn delta_content(t: TranslatedView) -> Seq<char> {
    match t {
        TranslatedView::Delta { content, .. } => content,
        _ => Seq::empty(),
    }
}

/// The text that the client was handed over a sequence of events.
pub open spec fn delivered_text(s: StateView, events: Seq<EventView>) -> Seq<char>
    decreases events.len(),
{
    if events.len() == 0 {
        Seq::empty()
    } else {
        let before = state_after(s, events.drop_last());
        delivered_text(s, events.drop_last()) + delta_content(
            translated(before, events.last(), JsonView::empty_object(), Seq::empty()),
        )
    }
}

/// The text that the state accumulates is, piece by piece, the text that the client was handed.
pub proof fn law_accumulated_text_was_delivered(s: StateView, events: Seq<EventView>)
    ensures
        state_after(s, events).accumulated_text == s.accumulated_text + delivered_text(s, events),
    decreases events.len(),
{
    if events.len() == 0 {
        assert(s.accumulated_text + Seq::<char>::empty() =~= s.accumulated_text);
    } else {
        law_accumulated_text_was_delivered(s, events.drop_last());
        assert(state_after(s, events).accumulated_text =~= s.accumulated_text + delivered_text(
            s,
            events,
        ));
    }
}

/// A response that completes, or that stops at its token limit, carries exactly the text that
/// was streamed to the client.
pub proof fn law_final_content_was_delivered(
    events: Seq<EventView>,
    tool_input: JsonView,
    sanitized: Seq<char>,
)
    ensures
        match translated(
            state_after(initial_state(), events),
            EventView::MessageStop,
            tool_input,
            sanitized,
        ) {
            TranslatedView::Completed { content, .. } => content == delivered_text(
                initial_state(),
                events,
            ),
            TranslatedView::Incomplete { partial_content, .. } => partial_content
                == delivered_text(initial_state(), events),
            TranslatedView::ToolUse { .. } => true,
            _ => false,
        },
{
    law_accumulated_text_was_delivered(initial_state(), events);
    assert(initial_state().accumulated_text + delivered_text(initial_state(), events)
        =~= delivered_text(initial_state(), events));
}

/// A response ends with the end of its message or with an error, and with no other event.
pub proof fn law_only_stop_and_error_end(
    s: StateView,
    event: EventView,
    tool_input: JsonView,
    sanitized: Seq<char>,
)
    ensures
        match translated(s, event, tool_input, sanitized) {
            TranslatedView::Completed { .. } => event is MessageStop,
            TranslatedView::Incomplete { .. } => event is MessageStop,
            TranslatedView::ToolUse { .. } => event is MessageStop,
            TranslatedView::Failed { .. } => event is Error,
            _ => !(event is MessageStop) && !(event is Error),
        },
{
}

/// The pieces of tool input in a sequence of events, put together.
pub open spec fn input_pieces(events: Seq<EventView>) -> Seq<char>
    decreases events.len(),
{
    if events.len() == 0 {
        Seq::empty()
    } else {
        match events.last() {
            EventView::ContentBlockDeltaInputJson { partial_json, .. } => input_pieces(
                events.drop_last(),
            ) + partial_json,
            _ => input_pieces(events.drop_last()),
        }
    }
}

/// A tool call is collected whole: after its block starts, and until another one does, the
/// state holds its id, its name and all the pieces of its input.
pub proof fn law_tool_call_is_collected(
    s: StateView,
    index: u32,
    id: Seq<char>,
    name: Seq<char>,
    events: Seq<EventView>,
)
    requires
        forall|i: int|
            0 <= i < events.len() ==> !((#[trigger] events[i]) is ContentBlockStartToolUse),
    ensures
        ({
            let started = next_state(s, EventView::ContentBlockStartToolUse { index, id, name });
            let after = state_after(started, events);
            &&& after.tool_use_id == id
            &&& after.tool_name == name
            &&& after.tool_input_json == input_pieces(events)
        }),
    decreases events.len(),
{
    if events.len() > 0 {
        assert forall|i: int| 0 <= i < events.drop_last().len() implies !((
        #[trigger] events.drop_last()[i]) is ContentBlockStartToolUse) by {
            assert(!(events[i] is ContentBlockStartToolUse));
        }
        assert(!(events[events.len() - 1] is ContentBlockStartToolUse));
        law_tool_call_is_collected(s, index, id, name, events.drop_last());
    }
}

/// The cache totals from the start of a message stay to its end where no delta reports others.
pub proof fn law_cache_totals_are_kept(s: StateView, events: Seq<EventView>)
    requires
        forall|i: int|
            0 <= i < events.len() ==> match #[trigger] events[i] {
                EventView::MessageStart { .. } => false,
                EventView::MessageDelta {
                    cache_read_input_tokens,
                    cache_creation_input_tokens,
                    ..
                } => cache_read_input_tokens == 0 && cache_creation_input_tokens == 0,
                _ => true,
            },
    ensures
        state_after(s, events).input_tokens == s.input_tokens,
        state_after(s, events).cache_read_input_tokens == s.cache_read_input_tokens,
        state_after(s, events).cache_write_input_tokens == s.cache_write_input_tokens,
    decreases events.len(),
{
    if events.len() > 0 {
        let rest = events.drop_last();
        assert forall|i: int| 0 <= i < rest.len() implies match #[trigger] rest[i] {
            EventView::MessageStart { .. } => false,
            EventView::MessageDelta {
                cache_read_input_tokens,
                cache_creation_input_tokens,
                ..
            } => cache_read_input_tokens == 0 && cache_creation_input_tokens == 0,
            _ => true,
        } by {
            assert(rest[i] == events[i]);
        }
        law_cache_totals_are_kept(s, rest);
        assert(events.last() == events[events.len() - 1]);
    }
}

/// The block at place `index` of the message, which is the server tool `name`, was started by
/// the event at place `i`, and has not stopped since.
pub open spec fn open_since(events: Seq<EventView>, i: int, index: u32, name: Seq<char>) -> bool {
    &&& 0 <= i < events.len()
    &&& events[i] matches EventView::ContentBlockStartServerToolUse {
        index: started,
        name: wire_name,
    } && started == index && shared_server_tool_name(wire_name) == Some(name)
    &&& forall|j: int|
        i < j < events.len() ==> (#[trigger] events[j] matches EventView::ContentBlockStop {
            index: stopped,
        } ==> stopped != index)
}

proof fn lemma_open_tool_was_started(events: Seq<EventView>)
    ensures
        ({
            let s = state_after(initial_state(), events);
            s.current_server_tool matches Some(name) ==> exists|i: int| #[trigger]
                open_since(events, i, s.server_tool_index, name)
        }),
    decreases events.len(),
{
    if events.len() > 0 {
        let rest = events.drop_last();
        lemma_open_tool_was_started(rest);
        let s = state_after(initial_state(), events);
        if let Some(name) = s.current_server_tool {
            let last = events.len() - 1;
            let index = s.server_tool_index;
            if events[last] is ContentBlockStartServerToolUse && shared_server_tool_name(
                events[last]->ContentBlockStartServerToolUse_name,
            ) is Some {
                assert(open_since(events, last, index, name));
            } else {
                let i = choose|i: int| #[trigger] open_since(rest, i, index, name);
                assert(rest[i] == events[i]);
                assert forall|j: int| i < j < events.len() implies (
                #[trigger] events[j] matches EventView::ContentBlockStop { index: stopped }
                    ==> stopped != index) by {
                    if j < last {
                        assert(rest[j] == events[j]);
                    }
                }
                assert(open_since(events, i, index, name));
            }
        }
    }
}

/// The client was told at place `i` that the server tool `name` has started, whose block at
/// place `index` of the message has not stopped since.
pub open spec fn reported_since(
    events: Seq<EventView>,
    i: int,
    index: u32,
    name: Seq<char>,
    tool_input: JsonView,
    sanitized: Seq<char>,
) -> bool {
    &&& open_since(events, i, index, name)
    &&& translated_at(initial_state(), events, i, tool_input, sanitized) == (TranslatedView::Tool {
        phase: ToolPhase::Start,
        name,
        details: JsonView::empty_object(),
    })
}

/// Every server tool that is reported as done was reported as started under the same name, when
/// the block started that now stops.
pub proof fn law_done_follows_start(
    events: Seq<EventView>,
    index: u32,
    tool_input: JsonView,
    sanitized: Seq<char>,
)
    ensures
        match translated(
            state_after(initial_state(), events),
            EventView::ContentBlockStop { index },
            tool_input,
            sanitized,
        ) {
            TranslatedView::Tool { phase, name, .. } => phase == ToolPhase::Done && exists|i: int|
                #[trigger] reported_since(events, i, index, name, tool_input, sanitized),
            t => t is Skip,
        },
{
    lemma_open_tool_was_started(events);
    let s = state_after(initial_state(), events);
    let t = translated(s, EventView::ContentBlockStop { index }, tool_input, sanitized);
    if let Some(name) = ended_tool(s, index) {
        let i = choose|i: int| #[trigger] open_since(events, i, index, name);
        assert(reported_since(events, i, index, t->Tool_name, tool_input, sanitized));
    }
}

/// A server tool is reported as done once: the next stop of its block is skipped unless another
/// server tool has started there.
pub proof fn law_done_is_reported_once(
    s: StateView,
    index: u32,
    tool_input: JsonView,
    sanitized: Seq<char>,
)
    ensures
        translated(
            next_state(s, EventView::ContentBlockStop { index }),
            EventView::ContentBlockStop { index },
            tool_input,
            sanitized,
        ) is Skip,
{
}

/// The stop of another block is skipped, and leaves the server tool open.
pub proof fn law_other_stops_leave_the_tool_open(
    s: StateView,
    index: u32,
    tool_input: JsonView,
    sanitized: Seq<char>,
)
    requires
        index != s.server_tool_index,
    ensures
        next_state(s, EventView::ContentBlockStop { index }) == s,
        translated(s, EventView::ContentBlockStop { index }, tool_input, sanitized) is Skip,
{
}

/// The version that a server tool's name ends in does not matter to the client.
pub proof fn law_tool_versions_do_not_matter(version: Seq<char>)
    ensures
        shared_server_tool_name("web_search"@ + version) == Some("web_search"@),
        shared_server_tool_name("code_execution"@ + version) == Some("code_interpreter"@),
{
    reveal_strlit("web_search");
    reveal_strlit("code_execution");
    let search = "web_search"@ + version;
    let code = "code_execution"@ + version;
    assert(search.take(10) =~= "web_search"@);
    assert(code.take(14) =~= "code_execution"@);
    assert(code.take(10)[0] == 'c' && "web_search"@[0] == 'w');
}

/// What a message comes to at its end depends on why it stopped and on nothing else: a tool call
/// is handed on whatever was said before it, a message that ran out of tokens is incomplete, and
/// any other one is complete. Each carries what was collected for it.
pub proof fn law_end_goes_by_the_stop_reason(s: StateView, tool_input: JsonView)
    ensures
        ({
            let end = outcome_of(s, tool_input);
            &&& end is ToolUse <==> s.stop_reason == "tool_use"@
            &&& end is Incomplete <==> s.stop_reason == "max_tokens"@
            &&& end is Completed <==> s.stop_reason != "tool_use"@ && s.stop_reason
                != "max_tokens"@
            &&& end matches TranslatedView::ToolUse { tool_use_id, name, input } ==> tool_use_id
                == s.tool_use_id && name == s.tool_name && input == tool_input
            &&& end matches TranslatedView::Incomplete { reason, partial_content, .. } ==> reason
                == s.stop_reason && partial_content == s.accumulated_text
            &&& end matches TranslatedView::Completed {
                response_id,
                content,
                citations,
                raw_response,
                ..
            } ==> {
                &&& response_id == s.message_id
                &&& content == s.accumulated_text
                &&& citations.len() == 0
                &&& raw_response.member("id"@) == Some(JsonView::Text(s.message_id))
                &&& raw_response->Object_0.dom() == set!["id"@]
            }
        }),
{
    reveal_strlit("tool_use");
    reveal_strlit("max_tokens");
    assert("tool_use"@.len() == 8 && "max_tokens"@.len() == 10);
    let end = outcome_of(s, tool_input);
    if end is Completed {
        assert(end->Completed_raw_response->Object_0.dom() =~= set!["id"@]);
    }
}

/// The end of a message is what its state comes to.
pub proof fn law_message_stop_ends_the_message(
    s: StateView,
    tool_input: JsonView,
    sanitized: Seq<char>,
)
    ensures
        translated(s, EventView::MessageStop, tool_input, sanitized) == outcome_of(s, tool_input),
        next_state(s, EventView::MessageStop) == s,
{
}

/// The usage that a message ends with counts the cached tokens into the input, and tells each
/// kind of token apart as well.
pub proof fn law_usage_counts_cached_tokens(s: StateView, tool_input: JsonView)
    requires
        total_fits(s.input_tokens, s.cache_read_input_tokens, s.cache_write_input_tokens),
    ensures
        ({
            let usage = match outcome_of(s, tool_input) {
                TranslatedView::Completed { usage, .. } => Some(usage),
                TranslatedView::Incomplete { usage, .. } => Some(usage),
                _ => None,
            };
            usage matches Some(u) ==> {
                &&& u.input_tokens == s.input_tokens + s.cache_read_input_tokens
                    + s.cache_write_input_tokens
                &&& u.output_tokens == s.output_tokens
                &&& u.cache_read_input_tokens == s.cache_read_input_tokens
                &&& u.cache_write_input_tokens == s.cache_write_input_tokens
                &&& u.reasoning_tokens == 0
            }
        }),
{
}

/// A total fits where neither of the two sums that make it up leaves 64 bits.
pub proof fn law_what_fits(input: i64, cache_read: i64, cache_write: i64)
    ensures
        total_fits(input, cache_read, cache_write) <==> (-0x8000_0000_0000_0000 <= input
            + cache_read <= 0x7fff_ffff_ffff_ffff && -0x8000_0000_0000_0000 <= input + cache_read
            + cache_write <= 0x7fff_ffff_ffff_ffff),
{
}

/// Text reaches the client as it comes, and is added to what was collected.
pub proof fn law_text_is_delivered_as_it_comes(
    s: StateView,
    index: u32,
    text: Seq<char>,
    tool_input: JsonView,
    sanitized: Seq<char>,
)
    ensures
        ({
            let event = EventView::ContentBlockDeltaText { index, text };
            &&& translated(s, event, tool_input, sanitized) == (TranslatedView::Delta {
                kind: "text"@,
                content: text,
            })
            &&& next_state(s, event).accumulated_text == s.accumulated_text + text
        }),
{
}

/// The pieces of text in a sequence of events, put together.
pub open spec fn text_pieces(events: Seq<EventView>) -> Seq<char>
    decreases events.len(),
{
    if events.len() == 0 {
        Seq::empty()
    } else {
        match events[0] {
            EventView::ContentBlockDeltaText { text, .. } => text + text_pieces(events.skip(1)),
            _ => text_pieces(events.skip(1)),
        }
    }
}

proof fn lemma_text_pieces_extend(events: Seq<EventView>)
    requires
        events.len() > 0,
    ensures
        text_pieces(events) == text_pieces(events.drop_last()) + match events.last() {
            EventView::ContentBlockDeltaText { text, .. } => text,
            _ => Seq::empty(),
        },
    decreases events.len(),
{
    reveal_with_fuel(text_pieces, 2);
    let last = match events.last() {
        EventView::ContentBlockDeltaText { text, .. } => text,
        _ => Seq::empty(),
    };
    if events.len() == 1 {
        assert(events.skip(1) =~= Seq::empty());
        assert(events.drop_last() =~= Seq::empty());
        assert(text_pieces(events) =~= text_pieces(events.drop_last()) + last);
    } else {
        lemma_text_pieces_extend(events.skip(1));
        assert(events.skip(1).drop_last() =~= events.drop_last().skip(1));
        assert(events.skip(1).last() == events.last());
        assert(events.drop_last()[0] == events[0]);
        assert(text_pieces(events) =~= text_pieces(events.drop_last()) + last);
    }
}

/// Over a whole stream the client is handed every piece of text that came, in its order and
/// without change, and so is the state.
pub proof fn law_all_text_is_delivered(s: StateView, events: Seq<EventView>)
    ensures
        delivered_text(s, events) == text_pieces(events),
        state_after(s, events).accumulated_text == s.accumulated_text + text_pieces(events),
    decreases events.len(),
{
    if events.len() > 0 {
        law_all_text_is_delivered(s, events.drop_last());
        lemma_text_pieces_extend(events);
        law_accumulated_text_was_delivered(s, events);
        assert(delivered_text(s, events) =~= text_pieces(events));
    } else {
        assert(s.accumulated_text + Seq::<char>::empty() =~= s.accumulated_text);
    }
}

/// Each part of the state is changed by the events that it is for, and by no other.
pub proof fn law_events_change_only_their_part(s: StateView, event: EventView)
    ensures
        ({
            let after = next_state(s, event);
            &&& !(event is MessageStart) ==> after.message_id == s.message_id && after.input_tokens
                == s.input_tokens
            &&& !(event is MessageDelta) ==> after.stop_reason == s.stop_reason
                && after.output_tokens == s.output_tokens
            &&& !(event is MessageStart) && !(event is MessageDelta)
                ==> after.cache_read_input_tokens == s.cache_read_input_tokens
                && after.cache_write_input_tokens == s.cache_write_input_tokens
            &&& !(event is ContentBlockDeltaText) ==> after.accumulated_text == s.accumulated_text
            &&& !(event is ContentBlockStartToolUse) ==> after.tool_use_id == s.tool_use_id
                && after.tool_name == s.tool_name
            &&& !(event is ContentBlockStartToolUse) && !(event is ContentBlockDeltaInputJson)
                ==> after.tool_input_json == s.tool_input_json
            &&& !(event is ContentBlockStartServerToolUse) && !(event is ContentBlockStop)
                ==> after.current_server_tool == s.current_server_tool
            &&& !(event is ContentBlockStartServerToolUse) ==> after.server_tool_index
                == s.server_tool_index
        }),
{
}

/// The start of a message sets its id and its counts, and its delta sets why it stopped and how
/// many tokens came out; a cache count of the delta replaces that of the start unless it is zero.
pub proof fn law_message_counts_are_taken(
    s: StateView,
    id: Seq<char>,
    reason: Seq<char>,
    count: i64,
    read: i64,
    creation: i64,
)
    ensures
        ({
            let started = next_state(
                s,
                EventView::MessageStart {
                    message_id: id,
                    input_tokens: count,
                    cache_read_input_tokens: read,
                    cache_creation_input_tokens: creation,
                },
            );
            let stopped = next_state(
                s,
                EventView::MessageDelta {
                    stop_reason: reason,
                    output_tokens: count,
                    cache_read_input_tokens: read,
                    cache_creation_input_tokens: creation,
                },
            );
            &&& started.message_id == id
            &&& started.input_tokens == count
            &&& started.cache_read_input_tokens == read
            &&& started.cache_write_input_tokens == creation
            &&& stopped.stop_reason == reason
            &&& stopped.output_tokens == count
            &&& read != 0 ==> stopped.cache_read_input_tokens == read
            &&& read == 0 ==> stopped.cache_read_input_tokens == s.cache_read_input_tokens
            &&& creation != 0 ==> stopped.cache_write_input_tokens == creation
            &&& creation == 0 ==> stopped.cache_write_input_tokens == s.cache_write_input_tokens
        }),
{
}

/// The start of a tool call is told under the tool's own name where the client knows it, and as
/// that of an unknown tool otherwise.
pub proof fn law_tool_calls_are_announced(
    s: StateView,
    index: u32,
    id: Seq<char>,
    name: Seq<char>,
    tool_input: JsonView,
    sanitized: Seq<char>,
)
    ensures
        translated(
            s,
            EventView::ContentBlockStartToolUse { index, id, name },
            tool_input,
            sanitized,
        ) matches TranslatedView::Tool { phase, name: told, details } && {
            &&& phase == ToolPhase::Start
            &&& name == "search_knowledge"@ || name == "load_files"@ ==> told == name
            &&& name != "search_knowledge"@ && name != "load_files"@ ==> told == "unknown_tool"@
            &&& details == JsonView::Object(Map::empty())
        },
{
}

/// A server tool that the client knows is told when its block starts, and stays open as that
/// block; one that the client does not know is passed over. The stop of an open block tells that
/// its tool is done, and closes it.
pub proof fn law_server_tools_are_announced(
    s: StateView,
    index: u32,
    name: Seq<char>,
    tool_input: JsonView,
    sanitized: Seq<char>,
)
    ensures
        ({
            let start = EventView::ContentBlockStartServerToolUse { index, name };
            let told = translated(s, start, tool_input, sanitized);
            let after = next_state(s, start);
            let stop = EventView::ContentBlockStop { index };
            let done = translated(after, stop, tool_input, sanitized);
            let search = "web_search"@.is_prefix_of(name);
            let code = "code_execution"@.is_prefix_of(name);
            &&& search ==> after.current_server_tool == Some("web_search"@)
            &&& code ==> after.current_server_tool == Some("code_interpreter"@)
            &&& search || code ==> {
                &&& after.server_tool_index == index
                &&& told == (TranslatedView::Tool {
                    phase: ToolPhase::Start,
                    name: after.current_server_tool->0,
                    details: JsonView::Object(Map::empty()),
                })
                &&& done == (TranslatedView::Tool {
                    phase: ToolPhase::Done,
                    name: after.current_server_tool->0,
                    details: JsonView::Object(Map::empty()),
                })
                &&& next_state(after, stop).current_server_tool is None
            }
            &&& !search && !code ==> told is Skip && after == s
        }),
{
    reveal_strlit("web_search");
    reveal_strlit("code_execution");
    assert("web_search"@.len() == 10 && "code_execution"@.len() == 14);
    assert("web_search"@.is_prefix_of(name) == has_prefix(name, "web_search"@));
    assert("code_execution"@.is_prefix_of(name) == has_prefix(name, "code_execution"@));
    if has_prefix(name, "code_execution"@) {
        assert(name.take(14)[0] == 'c');
        if has_prefix(name, "web_search"@) {
            assert(name.take(10)[0] == 'w');
        }
    }
}

/// An error of the stream ends it with the provider's type, the cleaned-up message, the
/// provider's own words, and the text that had come before it.
pub proof fn law_stream_errors_are_told(
    s: StateView,
    error_type: Seq<char>,
    message: Seq<char>,
    tool_input: JsonView,
    sanitized: Seq<char>,
)
    ensures
        translated(s, EventView::Error { error_type, message }, tool_input, sanitized) == (
        TranslatedView::Failed {
            error: ErrorView::ProviderError {
                code: error_type,
                message: sanitized,
                raw_detail: Some(message),
            },
            usage: None,
            partial_content: s.accumulated_text,
        }),
{
}

/// Everything else that happens in a stream is not told to the client.
pub proof fn law_other_events_are_skipped(
    s: StateView,
    event: EventView,
    tool_input: JsonView,
    sanitized: Seq<char>,
)
    ensures
        event is MessageStart || event is ContentBlockStartText
            || event is ContentBlockDeltaInputJson || event is MessageDelta || event is Ping
            || event is Unknown ==> translated(s, event, tool_input, sanitized) is Skip,
        event is ContentBlockStartText || event is Ping || event is Unknown || event is Error
            || event is MessageStop ==> next_state(s, event) == s,
{
}

/// The input of a tool call is what its text reads as, and the object without members where it
/// cannot be read.
pub proof fn law_tool_input_is_what_was_read(v: JsonView, reason: Seq<char>)
    ensures
        input_of_reading(Ok(v)) == v,
        input_of_reading(Err(reason)) == JsonView::Object(Map::empty()),
{
}

/// A tool call that a message stops for is handed on whole at its end, whatever came before the
/// call and whatever text comes beside it.
pub proof fn law_streamed_tool_call_is_handed_on(
    before: StateView,
    index: u32,
    id: Seq<char>,
    name: Seq<char>,
    events: Seq<EventView>,
    output_tokens: i64,
    read: i64,
    creation: i64,
    sanitized: Seq<char>,
)
    requires
        forall|i: int|
            0 <= i < events.len() ==> !((#[trigger] events[i]) is ContentBlockStartToolUse),
    ensures
        ({
            let called = state_after(
                next_state(before, EventView::ContentBlockStartToolUse { index, id, name }),
                events,
            );
            let stopped = next_state(
                called,
                EventView::MessageDelta {
                    stop_reason: "tool_use"@,
                    output_tokens,
                    cache_read_input_tokens: read,
                    cache_creation_input_tokens: creation,
                },
            );
            let input = input_of_reading(parsed_text(stopped.tool_input_json));
            &&& stopped.tool_input_json == input_pieces(events)
            &&& translated(stopped, EventView::MessageStop, input, sanitized) == (
            TranslatedView::ToolUse {
                tool_use_id: id,
                name,
                input: input_of_reading(parsed_text(input_pieces(events))),
            })
        }),
{
    law_tool_call_is_collected(before, index, id, name, events);
}

/// Pieces of tool input are put together in the order in which they come.
pub proof fn law_input_pieces_follow_the_stream(a: Seq<EventView>, b: Seq<EventView>)
    ensures
        input_pieces(a + b) == input_pieces(a) + input_pieces(b),
        b.len() == 1 ==> input_pieces(b) == match b[0] {
            EventView::ContentBlockDeltaInputJson { partial_json, .. } => partial_json,
            _ => Seq::empty(),
        },
    decreases b.len(),
{
    if b.len() == 0 {
        assert(a + b =~= a);
        assert(input_pieces(a) + input_pieces(b) =~= input_pieces(a));
    } else {
        law_input_pieces_follow_the_stream(a, b.drop_last());
        assert((a + b).drop_last() =~= a + b.drop_last());
        assert(input_pieces(a + b) =~= input_pieces(a) + input_pieces(b));
        if b.len() == 1 {
            assert(b.drop_last() =~= Seq::empty());
            assert(input_pieces(b) =~= match b[0] {
                EventView::ContentBlockDeltaInputJson { partial_json, .. } => partial_json,
                _ => Seq::empty(),
            });
        }
    }
}

/// The state says what its fields hold, and starts with nothing.
pub proof fn law_state_says_what_it_holds(state: AnthropicStreamState)
    ensures
        state@.message_id == state.message_id@,
        state@.accumulated_text == state.accumulated_text@,
        state@.tool_use_id == state.tool_use_id@,
        state@.tool_name == state.tool_name@,
        state@.tool_input_json == state.tool_input_json@,
        state.current_server_tool matches Some(name) ==> state@.current_server_tool == Some(name@),
        state.current_server_tool is None ==> state@.current_server_tool is None,
        state@.server_tool_index == state.server_tool_index,
        state@.input_tokens == state.input_tokens,
        state@.output_tokens == state.output_tokens,
        state@.cache_read_input_tokens == state.cache_read_input_tokens,
        state@.cache_write_input_tokens == state.cache_write_input_tokens,
        state@.stop_reason == state.stop_reason@,
        ({
            let start = initial_state();
            &&& start.message_id.len() == 0
            &&& start.accumulated_text.len() == 0
            &&& start.tool_use_id.len() == 0
            &&& start.tool_name.len() == 0
            &&& start.tool_input_json.len() == 0
            &&& start.current_server_tool is None
            &&& start.stop_reason.len() == 0
            &&& start.input_tokens == 0 && start.output_tokens == 0
            &&& start.cache_read_input_tokens == 0 && start.cache_write_input_tokens == 0
        }),
{
}

/// A step gives the translated event or the detail of the error, and the counts of a state fit
/// where those that it holds do.
pub proof fn law_steps_say_what_they_hold(
    r: Result<TranslatedEvent, StreamingError>,
    state: AnthropicStreamState,
)
    ensures
        r matches Ok(event) ==> step_view(r) == Ok::<TranslatedView, Seq<char>>(event@),
        r matches Err(StreamingError::ServerEventsParse { detail }) ==> step_view(r) == Err::<
            TranslatedView,
            Seq<char>,
        >(detail@),
        state.usage_fits() <==> total_fits(
            state@.input_tokens,
            state@.cache_read_input_tokens,
            state@.cache_write_input_tokens,
        ),
{
}

}
