//! Decoding the named server-sent events of the Messages API.

use vstd::prelude::*;

use crate::anthropic::wire::{
    check_structure, field_of, is_structure, optional_count, optional_text, read_field,
    read_optional_count, read_optional_text, read_required_index, read_required_text,
    required_index, required_text,
};
use crate::json::{parsed_text, reading_view, Json, JsonView, NumberView};
use crate::text::str_eq;

verus! {

/// The reason that is given for an event whose data is JSON of another shape than the event's.
pub const UNEXPECTED_SHAPE: &'static str = "unexpected shape";

/// A server-sent event as it comes off the wire.
#[derive(Debug)]
pub struct ServerEvent {
    pub event: Option<String>,
    pub data: String,
    pub id: Option<String>,
    pub retry: Option<u64>,
}

/// Why a stream of events cannot go on.
#[derive(Debug)]
pub enum StreamingError {
    ServerEventsParse { detail: String },
}

/// A decoded event of the Messages API.
#[derive(Debug)]
pub enum AnthropicEvent {
    MessageStart {
        message_id: String,
        input_tokens: i64,
        cache_read_input_tokens: i64,
        cache_creation_input_tokens: i64,
    },
    ContentBlockStartText { index: u32 },
    ContentBlockStartToolUse { index: u32, id: String, name: String },
    ContentBlockStartServerToolUse { index: u32, name: String },
    ContentBlockDeltaText { index: u32, text: String },
    ContentBlockDeltaInputJson { index: u32, partial_json: String },
    ContentBlockStop { index: u32 },
    MessageDelta {
        stop_reason: String,
        output_tokens: i64,
        cache_read_input_tokens: i64,
        cache_creation_input_tokens: i64,
    },
    MessageStop,
    Ping,
    Error { error_type: String, message: String },
    Unknown { event_name: String },
}

/// What a decoded event says.
pub enum EventView {
    MessageStart {
        message_id: Seq<char>,
        input_tokens: i64,
        cache_read_input_tokens: i64,
        cache_creation_input_tokens: i64,
    },
    ContentBlockStartText { index: u32 },
    ContentBlockStartToolUse { index: u32, id: Seq<char>, name: Seq<char> },
    ContentBlockStartServerToolUse { index: u32, name: Seq<char> },
    ContentBlockDeltaText { index: u32, text: Seq<char> },
    ContentBlockDeltaInputJson { index: u32, partial_json: Seq<char> },
    ContentBlockStop { index: u32 },
    MessageDelta {
        stop_reason: Seq<char>,
        output_tokens: i64,
        cache_read_input_tokens: i64,
        cache_creation_input_tokens: i64,
    },
    MessageStop,
    Ping,
    Error { error_type: Seq<char>, message: Seq<char> },
    Unknown { event_name: Seq<char> },
}

impl View for AnthropicEvent {
    type V = EventView;

    open spec fn view(&self) -> EventView {
        match *self {
            AnthropicEvent::MessageStart {
                message_id,
                input_tokens,
                cache_read_input_tokens,
                cache_creation_input_tokens,
            } => EventView::MessageStart {
                message_id: message_id@,
                input_tokens,
                cache_read_input_tokens,
                cache_creation_input_tokens,
            },
            AnthropicEvent::ContentBlockStartText { index } => EventView::ContentBlockStartText {
                index,
            },
            AnthropicEvent::ContentBlockStartToolUse { index, id, name } => {
                EventView::ContentBlockStartToolUse { index, id: id@, name: name@ }
            },
            AnthropicEvent::ContentBlockStartServerToolUse { index, name } => {
                EventView::ContentBlockStartServerToolUse { index, name: name@ }
            },
            AnthropicEvent::ContentBlockDeltaText { index, text } => {
                EventView::ContentBlockDeltaText { index, text: text@ }
            },
            AnthropicEvent::ContentBlockDeltaInputJson { index, partial_json } => {
                EventView::ContentBlockDeltaInputJson { index, partial_json: partial_json@ }
            },
            AnthropicEvent::ContentBlockStop { index } => EventView::ContentBlockStop { index },
            AnthropicEvent::MessageDelta {
                stop_reason,
                output_tokens,
                cache_read_input_tokens,
                cache_creation_input_tokens,
            } => EventView::MessageDelta {
                stop_reason: stop_reason@,
                output_tokens,
                cache_read_input_tokens,
                cache_creation_input_tokens,
            },
            AnthropicEvent::MessageStop => EventView::MessageStop,
            AnthropicEvent::Ping => EventView::Ping,
            AnthropicEvent::Error { error_type, message } => EventView::Error {
                error_type: error_type@,
                message: message@,
            },
            AnthropicEvent::Unknown { event_name } => EventView::Unknown {
                event_name: event_name@,
            },
        }
    }
}

/// The data of `message_start`: the message's id, and its usage, which may be left out in
/// whole or in part.
pub open spec fn message_start_of(v: JsonView) -> Option<EventView> {
    match field_of(v, "message"@, 0) {
        Some(message) => if is_structure(v, 1) && is_structure(message, 2) {
            let usage = match field_of(message, "usage"@, 1) {
                Some(usage) => usage,
                None => JsonView::empty_object(),
            };
            match (
                required_text(message, "id"@, 0),
                is_structure(usage, 3),
                optional_count(usage, "input_tokens"@, 0),
                optional_count(usage, "cache_read_input_tokens"@, 1),
                optional_count(usage, "cache_creation_input_tokens"@, 2),
            ) {
                (Some(message_id), true, Some(input), Some(read), Some(creation)) => Some(
                    EventView::MessageStart {
                        message_id,
                        input_tokens: input,
                        cache_read_input_tokens: read,
                        cache_creation_input_tokens: creation,
                    },
                ),
                _ => None,
            }
        } else {
            None
        },
        None => None,
    }
}

/// The data of `content_block_start`: where the block stands, and what kind of block it is.
/// A block that is no tool use counts as text.
pub open spec fn block_start_of(v: JsonView) -> Option<EventView> {
    match (field_of(v, "content_block"@, 1), required_index(v, "index"@, 0)) {
        (Some(block), Some(index)) => if is_structure(v, 2) && is_structure(block, 3) {
            match (
                required_text(block, "type"@, 0),
                optional_text(block, "id"@, 1),
                optional_text(block, "name"@, 2),
            ) {
                (Some(block_type), Some(id), Some(name)) => Some(
                    if block_type == "tool_use"@ {
                        EventView::ContentBlockStartToolUse { index, id, name }
                    } else if block_type == "server_tool_use"@ {
                        EventView::ContentBlockStartServerToolUse { index, name }
                    } else {
                        EventView::ContentBlockStartText { index }
                    },
                ),
                _ => None,
            }
        } else {
            None
        },
        _ => None,
    }
}

/// The data of `content_block_delta`: a piece of a tool's input, or else of text.
pub open spec fn block_delta_of(v: JsonView) -> Option<EventView> {
    match (field_of(v, "delta"@, 1), required_index(v, "index"@, 0)) {
        (Some(delta), Some(index)) => if is_structure(v, 2) && is_structure(delta, 3) {
            match (
                required_text(delta, "type"@, 0),
                optional_text(delta, "text"@, 1),
                optional_text(delta, "partial_json"@, 2),
            ) {
                (Some(delta_type), Some(text), Some(partial_json)) => Some(
                    if delta_type == "input_json_delta"@ {
                        EventView::ContentBlockDeltaInputJson { index, partial_json }
                    } else {
                        EventView::ContentBlockDeltaText { index, text }
                    },
                ),
                _ => None,
            }
        } else {
            None
        },
        _ => None,
    }
}

/// The data of `content_block_stop`: where the block stands.
pub open spec fn block_stop_of(v: JsonView) -> Option<EventView> {
    match required_index(v, "index"@, 0) {
        Some(index) => if is_structure(v, 1) {
            Some(EventView::ContentBlockStop { index })
        } else {
            None
        },
        None => None,
    }
}

/// The data of `message_delta`: why the message stopped, and its usage, which may be left out
/// in whole or in part.
pub open spec fn message_delta_of(v: JsonView) -> Option<EventView> {
    match field_of(v, "delta"@, 0) {
        Some(delta) => if is_structure(v, 2) && is_structure(delta, 1) {
            let usage = match field_of(v, "usage"@, 1) {
                Some(usage) => usage,
                None => JsonView::empty_object(),
            };
            match (
                optional_text(delta, "stop_reason"@, 0),
                is_structure(usage, 3),
                optional_count(usage, "output_tokens"@, 0),
                optional_count(usage, "cache_read_input_tokens"@, 1),
                optional_count(usage, "cache_creation_input_tokens"@, 2),
            ) {
                (Some(stop_reason), true, Some(output), Some(read), Some(creation)) => Some(
                    EventView::MessageDelta {
                        stop_reason,
                        output_tokens: output,
                        cache_read_input_tokens: read,
                        cache_creation_input_tokens: creation,
                    },
                ),
                _ => None,
            }
        } else {
            None
        },
        None => None,
    }
}

/// The type and the message of an error that stands under `error`.
pub open spec fn error_detail_of(v: JsonView) -> Option<(Seq<char>, Seq<char>)> {
    match field_of(v, "error"@, 0) {
        Some(error) => if is_structure(v, 1) && is_structure(error, 2) {
            match (optional_text(error, "type"@, 0), optional_text(error, "message"@, 1)) {
                (Some(error_type), Some(message)) => Some((error_type, message)),
                _ => None,
            }
        } else {
            None
        },
        None => None,
    }
}

/// The outcome of decoding an event's data: the event, or why it cannot be decoded.
pub open spec fn decoded_data(
    name: Seq<char>,
    reading: Result<JsonView, Seq<char>>,
    decoded: spec_fn(JsonView) -> Option<EventView>,
) -> Result<EventView, Seq<char>> {
    match reading {
        Ok(v) => match decoded(v) {
            Some(event) => Ok(event),
            None => Err("failed to parse "@ + name + ": "@ + UNEXPECTED_SHAPE@),
        },
        Err(reason) => Err("failed to parse "@ + name + ": "@ + reason),
    }
}

/// What the event with this name and this data is, where `reading` is what a JSON parser makes
/// of the data.
pub open spec fn event_of(
    name: Seq<char>,
    data: Seq<char>,
    reading: Result<JsonView, Seq<char>>,
) -> Result<EventView, Seq<char>> {
    if name == "message_start"@ {
        decoded_data(name, reading, |v: JsonView| message_start_of(v))
    } else if name == "content_block_start"@ {
        decoded_data(name, reading, |v: JsonView| block_start_of(v))
    } else if name == "content_block_delta"@ {
        decoded_data(name, reading, |v: JsonView| block_delta_of(v))
    } else if name == "content_block_stop"@ {
        decoded_data(name, reading, |v: JsonView| block_stop_of(v))
    } else if name == "message_delta"@ {
        decoded_data(name, reading, |v: JsonView| message_delta_of(v))
    } else if name == "message_stop"@ {
        Ok(EventView::MessageStop)
    } else if name == "ping"@ {
        Ok(EventView::Ping)
    } else if name == "error"@ {
        match reading {
            Ok(v) => match error_detail_of(v) {
                Some((error_type, message)) => Ok(EventView::Error { error_type, message }),
                None => Ok(EventView::Error { error_type: "unknown"@, message: data }),
            },
            Err(_) => Ok(EventView::Error { error_type: "unknown"@, message: data }),
        }
    } else {
        Ok(EventView::Unknown { event_name: name })
    }
}

/// The name under which a server-sent event is decoded.
pub open spec fn event_name_of(event: ServerEvent) -> Seq<char> {
    match event.event {
        Some(name) => name@,
        None => "unknown"@,
    }
}

/// What decoding returned: the event, or the detail of the error.
pub open spec fn decoding_view(r: Result<AnthropicEvent, StreamingError>) -> Result<
    EventView,
    Seq<char>,
> {
    match r {
        Ok(event) => Ok(event@),
        Err(StreamingError::ServerEventsParse { detail }) => Err(detail@),
    }
}

/// The view of an optional event.
pub open spec fn event_view(r: Option<AnthropicEvent>) -> Option<EventView> {
    match r {
        Some(event) => Some(event@),
        None => None,
    }
}

fn decode_message_start(v: &Json) -> (r: Option<AnthropicEvent>)
    ensures
        event_view(r) == message_start_of(v@),
{
    let message = match read_field(v, "message", 0) {
        Some(message) => message,
        None => return None,
    };
    if !check_structure(v, 1) || !check_structure(message, 2) {
        return None;
    }
    let none = Json::object();
    let usage = match read_field(message, "usage", 1) {
        Some(usage) => usage,
        None => &none,
    };
    if !check_structure(usage, 3) {
        return None;
    }
    match (
        read_required_text(message, "id", 0),
        read_optional_count(usage, "input_tokens", 0),
        read_optional_count(usage, "cache_read_input_tokens", 1),
        read_optional_count(usage, "cache_creation_input_tokens", 2),
    ) {
        (Some(message_id), Some(input), Some(read), Some(creation)) => Some(
            AnthropicEvent::MessageStart {
                message_id,
                input_tokens: input,
                cache_read_input_tokens: read,
                cache_creation_input_tokens: creation,
            },
        ),
        _ => None,
    }
}

fn decode_block_start(v: &Json) -> (r: Option<AnthropicEvent>)
    ensures
        event_view(r) == block_start_of(v@),
{
    let block = match read_field(v, "content_block", 1) {
        Some(block) => block,
        None => return None,
    };
    let index: u32 = match read_required_index(v, "index", 0) {
        Some(index) => index,
        None => return None,
    };
    if !check_structure(v, 2) || !check_structure(block, 3) {
        return None;
    }
    match (
        read_required_text(block, "type", 0),
        read_optional_text(block, "id", 1),
        read_optional_text(block, "name", 2),
    ) {
        (Some(block_type), Some(id), Some(name)) => {
            if str_eq(block_type.as_str(), "tool_use") {
                Some(AnthropicEvent::ContentBlockStartToolUse { index, id, name })
            } else if str_eq(block_type.as_str(), "server_tool_use") {
                Some(AnthropicEvent::ContentBlockStartServerToolUse { index, name })
            } else {
                Some(AnthropicEvent::ContentBlockStartText { index })
            }
        },
        _ => None,
    }
}

fn decode_block_delta(v: &Json) -> (r: Option<AnthropicEvent>)
    ensures
        event_view(r) == block_delta_of(v@),
{
    let delta = match read_field(v, "delta", 1) {
        Some(delta) => delta,
        None => return None,
    };
    let index: u32 = match read_required_index(v, "index", 0) {
        Some(index) => index,
        None => return None,
    };
    if !check_structure(v, 2) || !check_structure(delta, 3) {
        return None;
    }
    match (
        read_required_text(delta, "type", 0),
        read_optional_text(delta, "text", 1),
        read_optional_text(delta, "partial_json", 2),
    ) {
        (Some(delta_type), Some(text), Some(partial_json)) => {
            if str_eq(delta_type.as_str(), "input_json_delta") {
                Some(AnthropicEvent::ContentBlockDeltaInputJson { index, partial_json })
            } else {
                Some(AnthropicEvent::ContentBlockDeltaText { index, text })
            }
        },
        _ => None,
    }
}

fn decode_block_stop(v: &Json) -> (r: Option<AnthropicEvent>)
    ensures
        event_view(r) == block_stop_of(v@),
{
    let index: u32 = match read_required_index(v, "index", 0) {
        Some(index) => index,
        None => return None,
    };
    if check_structure(v, 1) {
        Some(AnthropicEvent::ContentBlockStop { index })
    } else {
        None
    }
}

fn decode_message_delta(v: &Json) -> (r: Option<AnthropicEvent>)
    ensures
        event_view(r) == message_delta_of(v@),
{
    let delta = match read_field(v, "delta", 0) {
        Some(delta) => delta,
        None => return None,
    };
    if !check_structure(v, 2) || !check_structure(delta, 1) {
        return None;
    }
    let none = Json::object();
    let usage = match read_field(v, "usage", 1) {
        Some(usage) => usage,
        None => &none,
    };
    if !check_structure(usage, 3) {
        return None;
    }
    match (
        read_optional_text(delta, "stop_reason", 0),
        read_optional_count(usage, "output_tokens", 0),
        read_optional_count(usage, "cache_read_input_tokens", 1),
        read_optional_count(usage, "cache_creation_input_tokens", 2),
    ) {
        (Some(stop_reason), Some(output), Some(read), Some(creation)) => Some(
            AnthropicEvent::MessageDelta {
                stop_reason,
                output_tokens: output,
                cache_read_input_tokens: read,
                cache_creation_input_tokens: creation,
            },
        ),
        _ => None,
    }
}

/// Reads the type and the message of an error that stands under `error`.
pub fn decode_error_detail(v: &Json) -> (r: Option<(String, String)>)
    ensures
        match r {
            Some((error_type, message)) => error_detail_of(v@) == Some((error_type@, message@)),
            None => error_detail_of(v@) is None,
        },
{
    let error = match read_field(v, "error", 0) {
        Some(error) => error,
        None => return None,
    };
    if !check_structure(v, 1) || !check_structure(error, 2) {
        return None;
    }
    match (read_optional_text(error, "type", 0), read_optional_text(error, "message", 1)) {
        (Some(error_type), Some(message)) => Some((error_type, message)),
        _ => None,
    }
}

/// The error for an event that cannot be decoded.
fn parse_failure(name: &str, reason: &str) -> (r: StreamingError)
    ensures
        r matches StreamingError::ServerEventsParse { detail } && detail@ == "failed to parse "@
            + name@ + ": "@ + reason@,
{
    let mut detail = "failed to parse ".to_owned();
    detail.append(name);
    detail.append(": ");
    detail.append(reason);
    StreamingError::ServerEventsParse { detail }
}

/// What was decoded, or the error for an event whose data has another shape.
fn decoded_or_failure(name: &str, decoded: Option<AnthropicEvent>) -> (r: Result<
    AnthropicEvent,
    StreamingError,
>)
    ensures
        match decoded {
            Some(event) => decoding_view(r) == Ok::<EventView, Seq<char>>(event@),
            None => decoding_view(r) == Err::<EventView, Seq<char>>(
                "failed to parse "@ + name@ + ": "@ + UNEXPECTED_SHAPE@,
            ),
        },
{
    match decoded {
        Some(event) => Ok(event),
        None => Err(parse_failure(name, UNEXPECTED_SHAPE)),
    }
}

/// The event carries data that is read as JSON.
pub open spec fn is_data_event(name: Seq<char>) -> bool {
    ||| name == "message_start"@
    ||| name == "content_block_start"@
    ||| name == "content_block_delta"@
    ||| name == "content_block_stop"@
    ||| name == "message_delta"@
}

fn data_event(name: &str) -> (r: bool)
    ensures
        r == is_data_event(name@),
{
    str_eq(name, "message_start") || str_eq(name, "content_block_start") || str_eq(
        name,
        "content_block_delta",
    ) || str_eq(name, "content_block_stop") || str_eq(name, "message_delta")
}

/// Decodes the event with this name and this data, where `reading` is what a JSON parser makes
/// of the data.
pub fn decode_event(name: &str, data: &str, reading: Result<Json, String>) -> (r: Result<
    AnthropicEvent,
    StreamingError,
>)
    ensures
        decoding_view(r) == event_of(name@, data@, reading_view(reading)),
{
    if data_event(name) {
        let v = match reading {
            Ok(v) => v,
            Err(reason) => return Err(parse_failure(name, reason.as_str())),
        };
        if str_eq(name, "message_start") {
            decoded_or_failure(name, decode_message_start(&v))
        } else if str_eq(name, "content_block_start") {
            decoded_or_failure(name, decode_block_start(&v))
        } else if str_eq(name, "content_block_delta") {
            decoded_or_failure(name, decode_block_delta(&v))
        } else if str_eq(name, "content_block_stop") {
            decoded_or_failure(name, decode_block_stop(&v))
        } else {
            decoded_or_failure(name, decode_message_delta(&v))
        }
    } else if str_eq(name, "message_stop") {
        Ok(AnthropicEvent::MessageStop)
    } else if str_eq(name, "ping") {
        Ok(AnthropicEvent::Ping)
    } else if str_eq(name, "error") {
        let detail = match reading {
            Ok(v) => decode_error_detail(&v),
            Err(_) => None,
        };
        match detail {
            Some((error_type, message)) => Ok(AnthropicEvent::Error { error_type, message }),
            None => Ok(
                AnthropicEvent::Error { error_type: "unknown".to_owned(), message: data.to_owned() },
            ),
        }
    } else {
        Ok(AnthropicEvent::Unknown { event_name: name.to_owned() })
    }
}

impl AnthropicEvent {
    /// Decodes a server-sent event by its name. An event without a name counts as one with the
    /// name `unknown`, and an event whose name means nothing here is no error.
    pub fn from_server_event(event: ServerEvent) -> (r: Result<AnthropicEvent, StreamingError>)
        ensures
            decoding_view(r) == event_of(
                event_name_of(event),
                event.data@,
                parsed_text(event.data@),
            ),
    {
        let name: &str = match &event.event {
            Some(name) => name.as_str(),
            None => "unknown",
        };
        if data_event(name) || str_eq(name, "error") {
            let reading = Json::parse(event.data.as_str());
            decode_event(name, event.data.as_str(), reading)
        } else {
            decode_event(name, event.data.as_str(), Err(String::new()))
        }
    }
}

/// Only an event that carries data can fail to decode: an event with any other name, an error
/// event among them, always decodes.
pub proof fn law_only_data_events_fail(
    name: Seq<char>,
    data: Seq<char>,
    reading: Result<JsonView, Seq<char>>,
)
    ensures
        event_of(name, data, reading) is Err ==> is_data_event(name),
{
}

/// An error event decodes to an error whatever its data is, so that no failure that the
/// provider reports is lost.
pub proof fn law_error_event_is_kept(data: Seq<char>, reading: Result<JsonView, Seq<char>>)
    ensures
        event_of("error"@, data, reading) matches Ok(EventView::Error { .. }),
{
    reveal_strlit("error");
    reveal_strlit("message_start");
    reveal_strlit("content_block_start");
    reveal_strlit("content_block_delta");
    reveal_strlit("content_block_stop");
    reveal_strlit("message_delta");
    reveal_strlit("message_stop");
    reveal_strlit("ping");
    assert("error"@.len() == 5 && "ping"@.len() == 4);
}

/// The names of the fields that the data of events can have.
pub open spec fn is_event_field(key: Seq<char>) -> bool {
    ||| key == "message"@
    ||| key == "index"@
    ||| key == "content_block"@
    ||| key == "delta"@
    ||| key == "usage"@
    ||| key == "error"@
}

/// What else an event's data holds does not matter: the event decodes as it would without.
pub proof fn law_other_data_is_ignored(
    name: Seq<char>,
    data: Seq<char>,
    members: Map<Seq<char>, JsonView>,
    key: Seq<char>,
    value: JsonView,
)
    requires
        !is_event_field(key),
    ensures
        event_of(name, data, Ok(JsonView::Object(members.insert(key, value)))) == event_of(
            name,
            data,
            Ok(JsonView::Object(members)),
        ),
{
}

/// The names of events are different texts.
proof fn lemma_event_names_differ()
    ensures
        "message_start"@ != "content_block_start"@,
        "message_start"@ != "content_block_delta"@,
        "message_start"@ != "content_block_stop"@,
        "message_start"@ != "message_delta"@,
        "message_start"@ != "message_stop"@,
        "message_start"@ != "ping"@,
        "message_start"@ != "error"@,
        "content_block_start"@ != "content_block_delta"@,
        "content_block_start"@ != "content_block_stop"@,
        "content_block_start"@ != "message_delta"@,
        "content_block_start"@ != "message_stop"@,
        "content_block_start"@ != "ping"@,
        "content_block_start"@ != "error"@,
        "content_block_delta"@ != "content_block_stop"@,
        "content_block_delta"@ != "message_delta"@,
        "content_block_delta"@ != "message_stop"@,
        "content_block_delta"@ != "ping"@,
        "content_block_delta"@ != "error"@,
        "content_block_stop"@ != "message_delta"@,
        "content_block_stop"@ != "message_stop"@,
        "content_block_stop"@ != "ping"@,
        "content_block_stop"@ != "error"@,
        "message_delta"@ != "message_stop"@,
        "message_delta"@ != "ping"@,
        "message_delta"@ != "error"@,
        "message_stop"@ != "ping"@,
        "message_stop"@ != "error"@,
        "ping"@ != "error"@,
{
    reveal_strlit("message_start");
    reveal_strlit("content_block_start");
    reveal_strlit("content_block_delta");
    reveal_strlit("content_block_stop");
    reveal_strlit("message_delta");
    reveal_strlit("message_stop");
    reveal_strlit("ping");
    reveal_strlit("error");
    assert("message_start"@.len() == 13);
    assert("message_delta"@.len() == 13);
    assert("message_start"@[8] == 's' && "message_delta"@[8] == 'd');
    assert("content_block_start"@.len() == 19);
    assert("content_block_delta"@.len() == 19);
    assert("content_block_start"@[14] == 's' && "content_block_delta"@[14] == 'd');
    assert("content_block_stop"@.len() == 18);
    assert("message_stop"@.len() == 12);
    assert("ping"@.len() == 4);
    assert("error"@.len() == 5);
}

/// A piece of text comes out of its event as it went in, character by character, at the place
/// that the event names; a delta of a kind that is not known counts as text too.
pub proof fn law_text_deltas_are_kept(
    data: Seq<char>,
    members: Map<Seq<char>, JsonView>,
    delta: Map<Seq<char>, JsonView>,
    index: u32,
    kind: Seq<char>,
    text: Seq<char>,
)
    requires
        members.contains_key("index"@),
        members["index"@] == JsonView::Number(NumberView::Int(index as int)),
        members.contains_key("delta"@),
        members["delta"@] == JsonView::Object(delta),
        delta.contains_key("type"@),
        delta["type"@] == JsonView::Text(kind),
        kind != "input_json_delta"@,
        delta.contains_key("text"@),
        delta["text"@] == JsonView::Text(text),
        delta.contains_key("partial_json"@) ==> delta["partial_json"@] is Text,
    ensures
        event_of("content_block_delta"@, data, Ok(JsonView::Object(members))) == Ok::<
            EventView,
            Seq<char>,
        >(EventView::ContentBlockDeltaText { index, text }),
{
    lemma_event_names_differ();
}

/// A piece of a tool's input comes out of its event as it went in.
pub proof fn law_input_deltas_are_kept(
    data: Seq<char>,
    members: Map<Seq<char>, JsonView>,
    delta: Map<Seq<char>, JsonView>,
    index: u32,
    partial_json: Seq<char>,
)
    requires
        members.contains_key("index"@),
        members["index"@] == JsonView::Number(NumberView::Int(index as int)),
        members.contains_key("delta"@),
        members["delta"@] == JsonView::Object(delta),
        delta.contains_key("type"@),
        delta["type"@] == JsonView::Text("input_json_delta"@),
        delta.contains_key("partial_json"@),
        delta["partial_json"@] == JsonView::Text(partial_json),
        delta.contains_key("text"@) ==> delta["text"@] is Text,
    ensures
        event_of("content_block_delta"@, data, Ok(JsonView::Object(members))) == Ok::<
            EventView,
            Seq<char>,
        >(EventView::ContentBlockDeltaInputJson { index, partial_json }),
{
    lemma_event_names_differ();
}

/// The start of a block tells its place and what it is: a tool call with its id and its name, a
/// server tool with its name, and text otherwise.
pub proof fn law_block_starts_are_kept(
    data: Seq<char>,
    members: Map<Seq<char>, JsonView>,
    block: Map<Seq<char>, JsonView>,
    index: u32,
    kind: Seq<char>,
    id: Seq<char>,
    name: Seq<char>,
)
    requires
        members.contains_key("index"@),
        members["index"@] == JsonView::Number(NumberView::Int(index as int)),
        members.contains_key("content_block"@),
        members["content_block"@] == JsonView::Object(block),
        block.contains_key("type"@),
        block["type"@] == JsonView::Text(kind),
        if block.contains_key("id"@) {
            block["id"@] == JsonView::Text(id)
        } else {
            id.len() == 0
        },
        if block.contains_key("name"@) {
            block["name"@] == JsonView::Text(name)
        } else {
            name.len() == 0
        },
    ensures
        ({
            let decoded = event_of("content_block_start"@, data, Ok(JsonView::Object(members)));
            &&& kind == "tool_use"@ ==> decoded == Ok::<EventView, Seq<char>>(
                EventView::ContentBlockStartToolUse { index, id, name },
            )
            &&& kind == "server_tool_use"@ ==> decoded == Ok::<EventView, Seq<char>>(
                EventView::ContentBlockStartServerToolUse { index, name },
            )
            &&& kind != "tool_use"@ && kind != "server_tool_use"@ ==> decoded == Ok::<
                EventView,
                Seq<char>,
            >(EventView::ContentBlockStartText { index })
        }),
{
    lemma_event_names_differ();
    reveal_strlit("tool_use");
    reveal_strlit("server_tool_use");
    assert("tool_use"@.len() == 8 && "server_tool_use"@.len() == 15);
    if !block.contains_key("id"@) {
        assert(id =~= Seq::empty());
    }
    if !block.contains_key("name"@) {
        assert(name =~= Seq::empty());
    }
}

/// The stop of a block tells its place.
pub proof fn law_block_stops_are_kept(
    data: Seq<char>,
    members: Map<Seq<char>, JsonView>,
    index: u32,
)
    requires
        members.contains_key("index"@),
        members["index"@] == JsonView::Number(NumberView::Int(index as int)),
    ensures
        event_of("content_block_stop"@, data, Ok(JsonView::Object(members))) == Ok::<
            EventView,
            Seq<char>,
        >(EventView::ContentBlockStop { index }),
{
    lemma_event_names_differ();
}

/// `count` is what the member under `key` counts: zero where there is none.
pub open spec fn counts_under(
    members: Map<Seq<char>, JsonView>,
    key: Seq<char>,
    count: i64,
) -> bool {
    if members.contains_key(key) {
        members[key] == JsonView::Number(NumberView::Int(count as int))
    } else {
        count == 0
    }
}

/// The start of a message tells its id and each of its counts; what is left out counts zero.
pub proof fn law_message_starts_are_kept(
    data: Seq<char>,
    members: Map<Seq<char>, JsonView>,
    message: Map<Seq<char>, JsonView>,
    usage: Map<Seq<char>, JsonView>,
    message_id: Seq<char>,
    input_tokens: i64,
    cache_read_input_tokens: i64,
    cache_creation_input_tokens: i64,
)
    requires
        members.contains_key("message"@),
        members["message"@] == JsonView::Object(message),
        message.contains_key("id"@),
        message["id"@] == JsonView::Text(message_id),
        if message.contains_key("usage"@) {
            message["usage"@] == JsonView::Object(usage)
        } else {
            usage == Map::<Seq<char>, JsonView>::empty()
        },
        counts_under(usage, "input_tokens"@, input_tokens),
        counts_under(usage, "cache_read_input_tokens"@, cache_read_input_tokens),
        counts_under(usage, "cache_creation_input_tokens"@, cache_creation_input_tokens),
    ensures
        event_of("message_start"@, data, Ok(JsonView::Object(members))) == Ok::<
            EventView,
            Seq<char>,
        >(
            EventView::MessageStart {
                message_id,
                input_tokens,
                cache_read_input_tokens,
                cache_creation_input_tokens,
            },
        ),
{
}

/// The delta of a message tells why the message stopped and each of its counts; what is left out
/// is empty or counts zero.
pub proof fn law_message_deltas_are_kept(
    data: Seq<char>,
    members: Map<Seq<char>, JsonView>,
    delta: Map<Seq<char>, JsonView>,
    usage: Map<Seq<char>, JsonView>,
    stop_reason: Seq<char>,
    output_tokens: i64,
    cache_read_input_tokens: i64,
    cache_creation_input_tokens: i64,
)
    requires
        members.contains_key("delta"@),
        members["delta"@] == JsonView::Object(delta),
        if delta.contains_key("stop_reason"@) {
            delta["stop_reason"@] == JsonView::Text(stop_reason)
        } else {
            stop_reason.len() == 0
        },
        if members.contains_key("usage"@) {
            members["usage"@] == JsonView::Object(usage)
        } else {
            usage == Map::<Seq<char>, JsonView>::empty()
        },
        counts_under(usage, "output_tokens"@, output_tokens),
        counts_under(usage, "cache_read_input_tokens"@, cache_read_input_tokens),
        counts_under(usage, "cache_creation_input_tokens"@, cache_creation_input_tokens),
    ensures
        event_of("message_delta"@, data, Ok(JsonView::Object(members))) == Ok::<
            EventView,
            Seq<char>,
        >(
            EventView::MessageDelta {
                stop_reason,
                output_tokens,
                cache_read_input_tokens,
                cache_creation_input_tokens,
            },
        ),
{
    lemma_event_names_differ();
    if !delta.contains_key("stop_reason"@) {
        assert(stop_reason =~= Seq::empty());
    }
}

/// An error that tells its type and its message keeps both; where one is left out it is empty.
/// Data that tells no such thing is kept whole, as the message of an unknown error.
pub proof fn law_error_events_are_kept(
    data: Seq<char>,
    members: Map<Seq<char>, JsonView>,
    error: Map<Seq<char>, JsonView>,
    error_type: Seq<char>,
    message: Seq<char>,
    reason: Seq<char>,
)
    requires
        if error.contains_key("type"@) {
            error["type"@] == JsonView::Text(error_type)
        } else {
            error_type.len() == 0
        },
        if error.contains_key("message"@) {
            error["message"@] == JsonView::Text(message)
        } else {
            message.len() == 0
        },
    ensures
        members.contains_key("error"@) && members["error"@] == JsonView::Object(error) ==> event_of(
            "error"@,
            data,
            Ok(JsonView::Object(members)),
        ) == Ok::<EventView, Seq<char>>(EventView::Error { error_type, message }),
        !members.contains_key("error"@) ==> event_of(
            "error"@,
            data,
            Ok(JsonView::Object(members)),
        ) == Ok::<EventView, Seq<char>>(
            EventView::Error { error_type: "unknown"@, message: data },
        ),
        event_of("error"@, data, Err(reason)) == Ok::<EventView, Seq<char>>(
            EventView::Error { error_type: "unknown"@, message: data },
        ),
{
    lemma_event_names_differ();
    if !error.contains_key("type"@) {
        assert(error_type =~= Seq::empty());
    }
    if !error.contains_key("message"@) {
        assert(message =~= Seq::empty());
    }
}

/// The end of a message and a ping are told by their names alone, and an event whose name is not
/// known is kept under that name.
pub proof fn law_events_without_data(
    name: Seq<char>,
    data: Seq<char>,
    reading: Result<JsonView, Seq<char>>,
)
    ensures
        event_of("message_stop"@, data, reading) == Ok::<EventView, Seq<char>>(
            EventView::MessageStop,
        ),
        event_of("ping"@, data, reading) == Ok::<EventView, Seq<char>>(EventView::Ping),
        name != "message_start"@ && name != "content_block_start"@ && name
            != "content_block_delta"@ && name != "content_block_stop"@ && name != "message_delta"@
            && name != "message_stop"@ && name != "ping"@ && name != "error"@ ==> event_of(
            name,
            data,
            reading,
        ) == Ok::<EventView, Seq<char>>(EventView::Unknown { event_name: name }),
{
    lemma_event_names_differ();
}

/// An event that carries data and whose data cannot be read, or lacks what the event cannot do
/// without, fails, and the failure names the event and the reason.
pub proof fn law_unreadable_data_is_told(
    name: Seq<char>,
    data: Seq<char>,
    reason: Seq<char>,
    v: JsonView,
)
    requires
        name == "message_start"@ || name == "content_block_start"@ || name
            == "content_block_delta"@ || name == "content_block_stop"@ || name == "message_delta"@,
    ensures
        event_of(name, data, Err(reason)) == Err::<EventView, Seq<char>>(
            "failed to parse "@ + name + ": "@ + reason,
        ),
        event_of(name, data, Ok(v)) matches Err(detail) ==> detail == "failed to parse "@ + name
            + ": "@ + "unexpected shape"@,
        (v matches JsonView::Object(members) && ({
            ||| name == "message_start"@ && !members.contains_key("message"@)
            ||| name == "content_block_start"@ && !(members.contains_key("index"@)
                && members.contains_key("content_block"@))
            ||| name == "content_block_delta"@ && !(members.contains_key("index"@)
                && members.contains_key("delta"@))
            ||| name == "content_block_stop"@ && !members.contains_key("index"@)
            ||| name == "message_delta"@ && !members.contains_key("delta"@)
        })) ==> event_of(name, data, Ok(v)) is Err,
        !(v is Object) && !(v is Array) ==> event_of(name, data, Ok(v)) is Err,
{
    lemma_event_names_differ();
}

/// Data that comes as an array, with the fields in their places, decodes as the object that
/// holds them under their names.
pub proof fn law_arrays_decode_as_objects(
    data: Seq<char>,
    index: JsonView,
    inner: JsonView,
    usage: JsonView,
)
    ensures
        event_of("message_start"@, data, Ok(JsonView::Array(seq![inner]))) == event_of(
            "message_start"@,
            data,
            Ok(JsonView::Object(map!["message"@ => inner])),
        ),
        event_of("content_block_start"@, data, Ok(JsonView::Array(seq![index, inner]))) == event_of(
            "content_block_start"@,
            data,
            Ok(JsonView::Object(map!["index"@ => index, "content_block"@ => inner])),
        ),
        event_of("content_block_delta"@, data, Ok(JsonView::Array(seq![index, inner]))) == event_of(
            "content_block_delta"@,
            data,
            Ok(JsonView::Object(map!["index"@ => index, "delta"@ => inner])),
        ),
        event_of("content_block_stop"@, data, Ok(JsonView::Array(seq![index]))) == event_of(
            "content_block_stop"@,
            data,
            Ok(JsonView::Object(map!["index"@ => index])),
        ),
        event_of("message_delta"@, data, Ok(JsonView::Array(seq![inner, usage]))) == event_of(
            "message_delta"@,
            data,
            Ok(JsonView::Object(map!["delta"@ => inner, "usage"@ => usage])),
        ),
        event_of("error"@, data, Ok(JsonView::Array(seq![inner]))) == event_of(
            "error"@,
            data,
            Ok(JsonView::Object(map!["error"@ => inner])),
        ),
{
    lemma_event_names_differ();
    reveal_strlit("index");
    reveal_strlit("content_block");
    reveal_strlit("delta");
    reveal_strlit("usage");
    assert("index"@.len() == 5 && "content_block"@.len() == 13 && "delta"@.len() == 5
        && "usage"@.len() == 5);
    assert("index"@[0] == 'i' && "delta"@[0] == 'd' && "usage"@[0] == 'u');
}

/// An event says what its fields hold.
pub proof fn law_events_say_what_they_hold(event: AnthropicEvent)
    ensures
        match event {
            AnthropicEvent::MessageStart {
                message_id,
                input_tokens,
                cache_read_input_tokens,
                cache_creation_input_tokens,
            } => event@ == (EventView::MessageStart {
                message_id: message_id@,
                input_tokens,
                cache_read_input_tokens,
                cache_creation_input_tokens,
            }),
            AnthropicEvent::ContentBlockStartText { index } => event@
                == (EventView::ContentBlockStartText { index }),
            AnthropicEvent::ContentBlockStartToolUse { index, id, name } => event@
                == (EventView::ContentBlockStartToolUse { index, id: id@, name: name@ }),
            AnthropicEvent::ContentBlockStartServerToolUse { index, name } => event@
                == (EventView::ContentBlockStartServerToolUse { index, name: name@ }),
            AnthropicEvent::ContentBlockDeltaText { index, text } => event@
                == (EventView::ContentBlockDeltaText { index, text: text@ }),
            AnthropicEvent::ContentBlockDeltaInputJson { index, partial_json } => event@
                == (EventView::ContentBlockDeltaInputJson { index, partial_json: partial_json@ }),
            AnthropicEvent::ContentBlockStop { index } => event@ == (EventView::ContentBlockStop {
                index,
            }),
            AnthropicEvent::MessageDelta {
                stop_reason,
                output_tokens,
                cache_read_input_tokens,
                cache_creation_input_tokens,
            } => event@ == (EventView::MessageDelta {
                stop_reason: stop_reason@,
                output_tokens,
                cache_read_input_tokens,
                cache_creation_input_tokens,
            }),
            AnthropicEvent::MessageStop => event@ is MessageStop,
            AnthropicEvent::Ping => event@ is Ping,
            AnthropicEvent::Error { error_type, message } => event@ == (EventView::Error {
                error_type: error_type@,
                message: message@,
            }),
            AnthropicEvent::Unknown { event_name } => event@ == (EventView::Unknown {
                event_name: event_name@,
            }),
        },
{
}

/// Data about the block at a place.
pub open spec fn block_data(index: JsonView, key: Seq<char>, inner: JsonView) -> JsonView {
    JsonView::Object(map!["index"@ => index, key => inner])
}

/// Data about a message with this id and this usage.
pub open spec fn message_data(id: JsonView, usage: JsonView) -> JsonView {
    JsonView::Object(
        map!["message"@ => JsonView::Object(map!["id"@ => id, "usage"@ => usage])],
    )
}

/// What stands inside the data of an event can come as arrays too, with the fields in their
/// places.
pub proof fn law_inner_arrays_decode_as_objects(
    data: Seq<char>,
    index: JsonView,
    a: JsonView,
    b: JsonView,
    c: JsonView,
)
    ensures
        event_of(
            "content_block_start"@,
            data,
            Ok(block_data(index, "content_block"@, JsonView::Array(seq![a, b, c]))),
        ) == event_of(
            "content_block_start"@,
            data,
            Ok(
                block_data(
                    index,
                    "content_block"@,
                    JsonView::Object(map!["type"@ => a, "id"@ => b, "name"@ => c]),
                ),
            ),
        ),
        event_of(
            "content_block_delta"@,
            data,
            Ok(block_data(index, "delta"@, JsonView::Array(seq![a, b, c]))),
        ) == event_of(
            "content_block_delta"@,
            data,
            Ok(
                block_data(
                    index,
                    "delta"@,
                    JsonView::Object(map!["type"@ => a, "text"@ => b, "partial_json"@ => c]),
                ),
            ),
        ),
        event_of(
            "message_start"@,
            data,
            Ok(message_data(index, JsonView::Array(seq![a, b, c]))),
        ) == event_of(
            "message_start"@,
            data,
            Ok(
                message_data(
                    index,
                    JsonView::Object(
                        map![
                            "input_tokens"@ => a,
                            "cache_read_input_tokens"@ => b,
                            "cache_creation_input_tokens"@ => c,
                        ],
                    ),
                ),
            ),
        ),
        event_of(
            "error"@,
            data,
            Ok(JsonView::Object(map!["error"@ => JsonView::Array(seq![a, b])])),
        ) == event_of(
            "error"@,
            data,
            Ok(
                JsonView::Object(
                    map!["error"@ => JsonView::Object(map!["type"@ => a, "message"@ => b])],
                ),
            ),
        ),
        event_of(
            "message_start"@,
            data,
            Ok(JsonView::Object(map!["message"@ => JsonView::Array(seq![a, b])])),
        ) == event_of(
            "message_start"@,
            data,
            Ok(
                JsonView::Object(
                    map!["message"@ => JsonView::Object(map!["id"@ => a, "usage"@ => b])],
                ),
            ),
        ),
{
    lemma_event_names_differ();
    reveal_strlit("type");
    reveal_strlit("id");
    reveal_strlit("name");
    reveal_strlit("text");
    reveal_strlit("partial_json");
    reveal_strlit("index");
    reveal_strlit("content_block");
    reveal_strlit("delta");
    reveal_strlit("usage");
    reveal_strlit("message");
    reveal_strlit("input_tokens");
    reveal_strlit("cache_read_input_tokens");
    reveal_strlit("cache_creation_input_tokens");
    assert("type"@.len() == 4 && "id"@.len() == 2 && "name"@.len() == 4 && "text"@.len() == 4
        && "partial_json"@.len() == 12 && "index"@.len() == 5 && "content_block"@.len() == 13
        && "delta"@.len() == 5 && "usage"@.len() == 5 && "message"@.len() == 7);
    assert("input_tokens"@.len() == 12 && "cache_read_input_tokens"@.len() == 23
        && "cache_creation_input_tokens"@.len() == 27);
    assert("type"@[0] == 't' && "name"@[0] == 'n' && "type"@[1] == 'y' && "text"@[1] == 'e');
    assert("index"@[0] == 'i' && "delta"@[0] == 'd');
}

/// An event goes by its name, and one without a name by `unknown`.
pub proof fn law_events_go_by_their_names(event: ServerEvent)
    ensures
        event.event matches Some(name) ==> event_name_of(event) == name@,
        event.event is None ==> event_name_of(event) == "unknown"@,
{
}

/// A decoded event, or the detail of why there is none, is what the result holds.
pub proof fn law_decodings_say_what_they_hold(
    r: Result<AnthropicEvent, StreamingError>,
    event: Option<AnthropicEvent>,
)
    ensures
        r matches Ok(decoded) ==> decoding_view(r) == Ok::<EventView, Seq<char>>(decoded@),
        r matches Err(StreamingError::ServerEventsParse { detail }) ==> decoding_view(r) == Err::<
            EventView,
            Seq<char>,
        >(detail@),
        event matches Some(decoded) ==> event_view(event) == Some(decoded@),
        event is None ==> event_view(event) is None,
{
}

/// A text stands under the key.
pub open spec fn has_text(members: Map<Seq<char>, JsonView>, key: Seq<char>) -> bool {
    members.contains_key(key) && members[key] is Text
}

/// Nothing but a text stands under the key.
pub open spec fn at_most_text(members: Map<Seq<char>, JsonView>, key: Seq<char>) -> bool {
    members.contains_key(key) ==> members[key] is Text
}

/// Nothing but an integer of 64 bits stands under the key.
pub open spec fn at_most_count(members: Map<Seq<char>, JsonView>, key: Seq<char>) -> bool {
    members.contains_key(key) ==> (members[key] matches JsonView::Number(NumberView::Int(i))
        && i64::MIN <= i <= i64::MAX)
}

/// An index of a block stands under `index`.
pub open spec fn has_index(members: Map<Seq<char>, JsonView>) -> bool {
    members.contains_key("index"@) && (members["index"@] matches JsonView::Number(
        NumberView::Int(i),
    ) && 0 <= i <= u32::MAX)
}

/// Data about a block decodes where the block has an index and its parts have the right types;
/// what may be left out may be left out.
pub proof fn law_when_block_data_decodes(
    members: Map<Seq<char>, JsonView>,
    inner: Map<Seq<char>, JsonView>,
)
    ensures
        members.contains_key("content_block"@) && members["content_block"@] == JsonView::Object(
            inner,
        ) ==> (block_start_of(JsonView::Object(members)) is Some <==> has_index(members)
            && has_text(inner, "type"@) && at_most_text(inner, "id"@) && at_most_text(
            inner,
            "name"@,
        )),
        members.contains_key("delta"@) && members["delta"@] == JsonView::Object(inner) ==> (
        block_delta_of(JsonView::Object(members)) is Some <==> has_index(members) && has_text(
            inner,
            "type"@,
        ) && at_most_text(inner, "text"@) && at_most_text(inner, "partial_json"@)),
        block_stop_of(JsonView::Object(members)) is Some <==> has_index(members),
        !members.contains_key("content_block"@) ==> block_start_of(
            JsonView::Object(members),
        ) is None,
        !members.contains_key("delta"@) ==> block_delta_of(JsonView::Object(members)) is None,
{
}

/// Data about a message decodes where its parts have the right types; what may be left out may
/// be left out, but what is there may not be of another type.
pub proof fn law_when_message_data_decodes(
    members: Map<Seq<char>, JsonView>,
    inner: Map<Seq<char>, JsonView>,
    counts: Map<Seq<char>, JsonView>,
)
    ensures
        members.contains_key("message"@) && members["message"@] == JsonView::Object(inner) ==> {
            let start = message_start_of(JsonView::Object(members));
            &&& !inner.contains_key("usage"@) ==> (start is Some <==> has_text(inner, "id"@))
            &&& inner.contains_key("usage"@) && inner["usage"@] == JsonView::Object(counts) ==> (
            start is Some <==> has_text(inner, "id"@) && at_most_count(counts, "input_tokens"@)
                && at_most_count(counts, "cache_read_input_tokens"@) && at_most_count(
                counts,
                "cache_creation_input_tokens"@,
            ))
            &&& inner.contains_key("usage"@) && !(inner["usage"@] is Object) && !(
            inner["usage"@] is Array) ==> start is None
        },
        members.contains_key("delta"@) && members["delta"@] == JsonView::Object(inner) ==> {
            let delta = message_delta_of(JsonView::Object(members));
            &&& !members.contains_key("usage"@) ==> (delta is Some <==> at_most_text(
                inner,
                "stop_reason"@,
            ))
            &&& members.contains_key("usage"@) && members["usage"@] == JsonView::Object(counts) ==> (
            delta is Some <==> at_most_text(inner, "stop_reason"@) && at_most_count(
                counts,
                "output_tokens"@,
            ) && at_most_count(counts, "cache_read_input_tokens"@) && at_most_count(
                counts,
                "cache_creation_input_tokens"@,
            ))
            &&& members.contains_key("usage"@) && !(members["usage"@] is Object) && !(
            members["usage"@] is Array) ==> delta is None
        },
        members.contains_key("error"@) && members["error"@] == JsonView::Object(inner) ==> (
        error_detail_of(JsonView::Object(members)) is Some <==> at_most_text(inner, "type"@)
            && at_most_text(inner, "message"@)),
        !members.contains_key("message"@) ==> message_start_of(JsonView::Object(members)) is None,
        !members.contains_key("delta"@) ==> message_delta_of(JsonView::Object(members)) is None,
        !members.contains_key("error"@) ==> error_detail_of(JsonView::Object(members)) is None,
{
}

/// An array with more than the fields of what it stands for decodes to nothing, and neither does
/// what is no object and no array, be it the data itself or a part of it.
pub proof fn law_what_decodes_to_nothing(
    v: JsonView,
    members: Map<Seq<char>, JsonView>,
    inner: JsonView,
    items: Seq<JsonView>,
)
    requires
        v is Array ==> v == JsonView::Array(items),
        inner is Array ==> inner == JsonView::Array(items),
    ensures
        !(v is Object) && (v is Array ==> items.len() > 2) ==> {
            &&& block_start_of(v) is None
            &&& block_delta_of(v) is None
            &&& message_delta_of(v) is None
        },
        !(v is Object) && (v is Array ==> items.len() > 1) ==> {
            &&& block_stop_of(v) is None
            &&& message_start_of(v) is None
            &&& error_detail_of(v) is None
        },
        !(inner is Object) && (inner is Array ==> items.len() > 3) ==> block_start_of(
            JsonView::Object(members.insert("content_block"@, inner)),
        ) is None && block_delta_of(JsonView::Object(members.insert("delta"@, inner))) is None,
        !(inner is Object) && (inner is Array ==> items.len() > 2) ==> message_start_of(
            JsonView::Object(members.insert("message"@, inner)),
        ) is None && error_detail_of(JsonView::Object(members.insert("error"@, inner))) is None,
        !(inner is Object) && (inner is Array ==> items.len() > 1) ==> message_delta_of(
            JsonView::Object(members.insert("delta"@, inner)),
        ) is None,
        !(inner is Object) && (inner is Array ==> items.len() > 3) ==> message_delta_of(
            JsonView::Object(members.insert("usage"@, inner)),
        ) is None && message_start_of(
            JsonView::Object(
                map!["message"@ => JsonView::Object(members.insert("usage"@, inner))],
            ),
        ) is None,
{
}

/// An event that carries data is what its data decodes to, and fails where that is nothing.
pub proof fn law_events_are_what_their_data_decodes_to(data: Seq<char>, v: JsonView)
    ensures
        event_of("message_start"@, data, Ok(v)).ok() == message_start_of(v),
        event_of("content_block_start"@, data, Ok(v)).ok() == block_start_of(v),
        event_of("content_block_delta"@, data, Ok(v)).ok() == block_delta_of(v),
        event_of("content_block_stop"@, data, Ok(v)).ok() == block_stop_of(v),
        event_of("message_delta"@, data, Ok(v)).ok() == message_delta_of(v),
{
    lemma_event_names_differ();
}

}
