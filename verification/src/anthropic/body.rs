//! The JSON body of a request to the Messages API.

use vstd::prelude::*;

use crate::anthropic::convert::{
    convert_raw_input_items, converted_items, law_messages_hold_role_and_content, make_message,
    make_text_block, message_json, role_name, text_block,
};
use crate::json::{
    items_view, lemma_items_view, members_view, set_member, Json, JsonView, NumberView,
};
use crate::llm::{ContentPart, LlmMessage, LlmTool, ModelApiParams, Role};
use crate::request::{FileIdMap, LlmRequest, UserIdentity};

verus! {

/// The token cap of a request that sets none: the API requires one.
pub const DEFAULT_MAX_TOKENS: u64 = 4096;

/// A JSON integer.
pub open spec fn int_json(n: int) -> JsonView {
    JsonView::Number(NumberView::Int(n))
}

/// An array of texts.
pub open spec fn texts_json(texts: Seq<String>) -> JsonView {
    JsonView::Array(Seq::new(texts.len(), |i: int| JsonView::Text(texts[i]@)))
}

/// An image that was uploaded under this id.
pub open spec fn image_block(file_id: Seq<char>) -> JsonView {
    let source = Map::empty().insert("type"@, JsonView::Text("file"@)).insert(
        "file_id"@,
        JsonView::Text(file_id),
    );
    JsonView::Object(
        Map::empty().insert("type"@, JsonView::Text("image"@)).insert(
            "source"@,
            JsonView::Object(source),
        ),
    )
}

/// The block of a piece of a message. An image goes by the id that Anthropic knows it under,
/// and is left out where there is none.
pub open spec fn part_block(part: ContentPart, ids: Map<Seq<char>, Seq<char>>) -> Option<JsonView> {
    match part {
        ContentPart::Text { text } => Some(text_block(text@)),
        ContentPart::Image { file_id } => if ids.contains_key(file_id@) {
            Some(image_block(ids[file_id@]))
        } else {
            None
        },
    }
}

/// The blocks of a message, in order.
pub open spec fn content_blocks(
    parts: Seq<ContentPart>,
    ids: Map<Seq<char>, Seq<char>>,
) -> Seq<JsonView>
    decreases parts.len(),
{
    if parts.len() == 0 {
        Seq::empty()
    } else {
        match part_block(parts.last(), ids) {
            Some(block) => content_blocks(parts.drop_last(), ids).push(block),
            None => content_blocks(parts.drop_last(), ids),
        }
    }
}

/// The messages, in order, without those of the system: its instructions have a place of their
/// own.
pub open spec fn plain_messages(
    messages: Seq<LlmMessage>,
    ids: Map<Seq<char>, Seq<char>>,
) -> Seq<JsonView>
    decreases messages.len(),
{
    if messages.len() == 0 {
        Seq::empty()
    } else {
        let before = plain_messages(messages.drop_last(), ids);
        let last = messages.last();
        if last.role == Role::System {
            before
        } else {
            before.push(message_json(last.role, content_blocks(last.content@, ids)))
        }
    }
}

/// The definition of a tool. Web search and code execution are native server tools; file search
/// is none, and is left out.
pub open spec fn tool_json(tool: LlmTool) -> Option<JsonView> {
    match tool {
        LlmTool::Function { name, description, parameters } => Some(
            JsonView::Object(
                Map::empty().insert("name"@, JsonView::Text(name@)).insert(
                    "description"@,
                    JsonView::Text(description@),
                ).insert("input_schema"@, parameters@),
            ),
        ),
        LlmTool::WebSearch { .. } => Some(
            server_tool_json("web_search_20260209"@, "web_search"@),
        ),
        LlmTool::CodeInterpreter { .. } => Some(
            server_tool_json("code_execution_20250825"@, "code_execution"@),
        ),
        LlmTool::FileSearch { .. } => None,
    }
}

/// The definition of a native server tool.
pub open spec fn server_tool_json(tool_type: Seq<char>, name: Seq<char>) -> JsonView {
    JsonView::Object(
        Map::empty().insert("type"@, JsonView::Text(tool_type)).insert(
            "name"@,
            JsonView::Text(name),
        ),
    )
}

/// The definitions of the tools, in order.
pub open spec fn tools_json(tools: Seq<LlmTool>) -> Seq<JsonView>
    decreases tools.len(),
{
    if tools.len() == 0 {
        Seq::empty()
    } else {
        match tool_json(tools.last()) {
            Some(tool) => tools_json(tools.drop_last()).push(tool),
            None => tools_json(tools.drop_last()),
        }
    }
}

/// The model chooses its tools, at most one at a time: the stream's state has room for one.
pub open spec fn tool_choice_json() -> JsonView {
    JsonView::Object(
        Map::empty().insert("type"@, JsonView::Text("auto"@)).insert(
            "disable_parallel_tool_use"@,
            JsonView::Bool(true),
        ),
    )
}

/// The members that every body has.
pub open spec fn base_members<M>(request: LlmRequest<M>, stream: bool) -> Map<Seq<char>, JsonView> {
    let max_tokens = match request.max_output_tokens {
        Some(n) => n,
        None => DEFAULT_MAX_TOKENS,
    };
    Map::empty().insert("stream"@, JsonView::Bool(stream)).insert(
        "model"@,
        JsonView::Text(request.model@),
    ).insert("max_tokens"@, int_json(max_tokens as int))
}

/// The inference parameters that the API takes. It refuses a temperature beside `top_p`, so a
/// `top_p` that says something (one below one) goes alone, and the temperature goes otherwise.
pub open spec fn with_params(
    body: Map<Seq<char>, JsonView>,
    params: Option<ModelApiParams>,
) -> Map<Seq<char>, JsonView> {
    match params {
        Some(p) => {
            let sampled = if p.top_p.below_one() {
                body.insert("top_p"@, p.top_p.json())
            } else {
                body.insert("temperature"@, p.temperature.json())
            };
            if p.stop@.len() > 0 {
                sampled.insert("stop_sequences"@, texts_json(p.stop@))
            } else {
                sampled
            }
        },
        None => body,
    }
}

/// The system instructions, where there are any.
pub open spec fn with_system(
    body: Map<Seq<char>, JsonView>,
    instructions: Option<String>,
) -> Map<Seq<char>, JsonView> {
    match instructions {
        Some(text) => body.insert("system"@, JsonView::Text(text@)),
        None => body,
    }
}

/// The messages, where there are any.
pub open spec fn with_messages(
    body: Map<Seq<char>, JsonView>,
    messages: Seq<JsonView>,
) -> Map<Seq<char>, JsonView> {
    if messages.len() > 0 {
        body.insert("messages"@, JsonView::Array(messages))
    } else {
        body
    }
}

/// The user on whose behalf the request is made, where that is known.
pub open spec fn with_user(
    body: Map<Seq<char>, JsonView>,
    identity: Option<UserIdentity>,
) -> Map<Seq<char>, JsonView> {
    match identity {
        Some(user) => body.insert(
            "metadata"@,
            JsonView::Object(
                Map::empty().insert(
                    "user_id"@,
                    JsonView::Text(user.tenant_id@ + ":"@ + user.user_id@),
                ),
            ),
        ),
        None => body,
    }
}

/// The tools and how they are chosen, where there are any.
pub open spec fn with_tools(
    body: Map<Seq<char>, JsonView>,
    tools: Seq<LlmTool>,
) -> Map<Seq<char>, JsonView> {
    if tools_json(tools).len() > 0 {
        body.insert("tools"@, JsonView::Array(tools_json(tools))).insert(
            "tool_choice"@,
            tool_choice_json(),
        )
    } else {
        body
    }
}

/// The members of an object of extras, each in place of what stood under its key.
pub open spec fn with_extras(
    body: Map<Seq<char>, JsonView>,
    extras: Option<Json>,
) -> Map<Seq<char>, JsonView> {
    match extras {
        Some(extra) => match extra@ {
            JsonView::Object(members) => body.union_prefer_right(members),
            _ => body,
        },
        None => body,
    }
}

/// The members of the body before the extras, where `recorded` are the messages of the recorded
/// tool calls.
pub open spec fn typed_members<M>(
    request: LlmRequest<M>,
    stream: bool,
    recorded: Seq<JsonView>,
) -> Map<Seq<char>, JsonView> {
    let messages = plain_messages(request.messages@, request.anthropic_file_ids@) + recorded;
    with_tools(
        with_user(
            with_messages(
                with_system(
                    with_params(base_members(request, stream), request.api_params),
                    request.system_instructions,
                ),
                messages,
            ),
            request.user_identity,
        ),
        request.tools@,
    )
}

/// The body of a request, where `recorded` are the messages of the recorded tool calls.
pub open spec fn request_body<M>(
    request: LlmRequest<M>,
    stream: bool,
    recorded: Seq<JsonView>,
) -> JsonView {
    JsonView::Object(
        with_extras(typed_members(request, stream, recorded), request.additional_params),
    )
}

fn make_image_block(file_id: &str) -> (r: Json)
    ensures
        r@ == image_block(file_id@),
{
    let mut source = Json::object();
    source.set("type", Json::text("file"));
    source.set("file_id", Json::text(file_id));
    let mut block = Json::object();
    block.set("type", Json::text("image"));
    block.set("source", source);
    block
}

/// The blocks of a message.
fn make_content(parts: &Vec<ContentPart>, ids: &FileIdMap) -> (r: Vec<Json>)
    ensures
        items_view(r@) == content_blocks(parts@, ids@),
{
    let mut out: Vec<Json> = Vec::new();
    let mut i: usize = 0;
    while i < parts.len()
        invariant
            i <= parts@.len(),
            items_view(out@) == content_blocks(parts@.take(i as int), ids@),
        decreases parts@.len() - i,
    {
        let ghost before = out@;
        proof {
            assert(parts@.take(i + 1).drop_last() =~= parts@.take(i as int));
            assert(parts@.take(i + 1).last() == parts@[i as int]);
        }
        let block: Option<Json> = match &parts[i] {
            ContentPart::Text { text } => Some(make_text_block(text.as_str())),
            ContentPart::Image { file_id } => match ids.get(file_id.as_str()) {
                Some(id) => Some(make_image_block(id)),
                None => None,
            },
        };
        match block {
            Some(block) => {
                out.push(block);
                proof {
                    assert(out@.drop_last() =~= before);
                }
            },
            None => {},
        }
        i = i + 1;
    }
    proof {
        assert(parts@.take(i as int) =~= parts@);
    }
    out
}

/// The messages that are not the system's.
fn make_messages(messages: &Vec<LlmMessage>, ids: &FileIdMap) -> (r: Vec<Json>)
    ensures
        items_view(r@) == plain_messages(messages@, ids@),
{
    let mut out: Vec<Json> = Vec::new();
    let mut i: usize = 0;
    while i < messages.len()
        invariant
            i <= messages@.len(),
            items_view(out@) == plain_messages(messages@.take(i as int), ids@),
        decreases messages@.len() - i,
    {
        let ghost before = out@;
        proof {
            assert(messages@.take(i + 1).drop_last() =~= messages@.take(i as int));
            assert(messages@.take(i + 1).last() == messages@[i as int]);
        }
        if messages[i].role != Role::System {
            out.push(make_message(messages[i].role, make_content(&messages[i].content, ids)));
            proof {
                assert(out@.drop_last() =~= before);
            }
        }
        i = i + 1;
    }
    proof {
        assert(messages@.take(i as int) =~= messages@);
    }
    out
}

fn make_server_tool(tool_type: &str, name: &str) -> (r: Json)
    ensures
        r@ == server_tool_json(tool_type@, name@),
{
    let mut tool = Json::object();
    tool.set("type", Json::text(tool_type));
    tool.set("name", Json::text(name));
    tool
}

/// The definition of a tool, if it has one.
fn make_tool(tool: &LlmTool) -> (r: Option<Json>)
    ensures
        match r {
            Some(json) => tool_json(*tool) == Some(json@),
            None => tool_json(*tool) is None,
        },
{
    match tool {
        LlmTool::Function { name, description, parameters } => {
            let mut json = Json::object();
            json.set("name", Json::text(name.as_str()));
            json.set("description", Json::text(description.as_str()));
            json.set("input_schema", parameters.clone());
            Some(json)
        },
        LlmTool::WebSearch { .. } => Some(make_server_tool("web_search_20260209", "web_search")),
        LlmTool::CodeInterpreter { .. } => Some(
            make_server_tool("code_execution_20250825", "code_execution"),
        ),
        LlmTool::FileSearch { .. } => None,
    }
}

/// The definitions of the tools.
fn make_tools(tools: &Vec<LlmTool>) -> (r: Vec<Json>)
    ensures
        items_view(r@) == tools_json(tools@),
{
    let mut out: Vec<Json> = Vec::new();
    let mut i: usize = 0;
    while i < tools.len()
        invariant
            i <= tools@.len(),
            items_view(out@) == tools_json(tools@.take(i as int)),
        decreases tools@.len() - i,
    {
        let ghost before = out@;
        proof {
            assert(tools@.take(i + 1).drop_last() =~= tools@.take(i as int));
            assert(tools@.take(i + 1).last() == tools@[i as int]);
        }
        match make_tool(&tools[i]) {
            Some(tool) => {
                out.push(tool);
                proof {
                    assert(out@.drop_last() =~= before);
                }
            },
            None => {},
        }
        i = i + 1;
    }
    proof {
        assert(tools@.take(i as int) =~= tools@);
    }
    out
}

fn make_texts(texts: &Vec<String>) -> (r: Json)
    ensures
        r@ == texts_json(texts@),
{
    let mut out: Vec<Json> = Vec::new();
    let mut i: usize = 0;
    while i < texts.len()
        invariant
            i <= texts@.len(),
            out@.len() == i,
            forall|j: int|
                0 <= j < i ==> (#[trigger] out@[j])@ == JsonView::Text(texts@[j]@),
        decreases texts@.len() - i,
    {
        out.push(Json::text(texts[i].as_str()));
        i = i + 1;
    }
    proof {
        lemma_items_view(out@);
        assert(items_view(out@) =~= Seq::new(texts@.len(), |j: int| JsonView::Text(texts@[j]@)));
    }
    Json::Array(out)
}

fn add_params(body: &mut Vec<(String, Json)>, params: &Option<ModelApiParams>)
    ensures
        members_view(final(body)@) == with_params(members_view(old(body)@), *params),
{
    match params {
        Some(p) => {
            if p.top_p.is_below_one() {
                set_member(body, "top_p", p.top_p.to_json());
            } else {
                set_member(body, "temperature", p.temperature.to_json());
            }
            if p.stop.len() > 0 {
                set_member(body, "stop_sequences", make_texts(&p.stop));
            }
        },
        None => {},
    }
}

fn add_tools(body: &mut Vec<(String, Json)>, tools: &Vec<LlmTool>)
    ensures
        members_view(final(body)@) == with_tools(members_view(old(body)@), tools@),
{
    let json = make_tools(tools);
    proof {
        lemma_items_view(json@);
    }
    if json.len() > 0 {
        set_member(body, "tools", Json::Array(json));
        let mut choice = Json::object();
        choice.set("type", Json::text("auto"));
        choice.set("disable_parallel_tool_use", Json::Bool(true));
        set_member(body, "tool_choice", choice);
    }
}

fn add_user(body: &mut Vec<(String, Json)>, identity: &Option<UserIdentity>)
    ensures
        members_view(final(body)@) == with_user(members_view(old(body)@), *identity),
{
    match identity {
        Some(user) => {
            let mut id = user.tenant_id.clone();
            id.append(":");
            id.append(user.user_id.as_str());
            let mut metadata = Json::object();
            metadata.set("user_id", Json::Text(id));
            set_member(body, "metadata", metadata);
        },
        None => {},
    }
}

fn add_extras(body: &mut Vec<(String, Json)>, extras: &Option<Json>)
    ensures
        members_view(final(body)@) == with_extras(members_view(old(body)@), *extras),
{
    match extras {
        Some(Json::Object(extra)) => {
            let ghost start = members_view(body@);
            let mut i: usize = 0;
            proof {
                assert(start.union_prefer_right(members_view(extra@.take(0))) =~= start);
            }
            while i < extra.len()
                invariant
                    i <= extra@.len(),
                    members_view(body@) == start.union_prefer_right(
                        members_view(extra@.take(i as int)),
                    ),
                decreases extra@.len() - i,
            {
                let ghost before = members_view(extra@.take(i as int));
                proof {
                    assert(extra@.take(i + 1).drop_last() =~= extra@.take(i as int));
                    assert(extra@.take(i + 1).last() == extra@[i as int]);
                }
                let value = extra[i].1.clone();
                set_member(body, extra[i].0.as_str(), value);
                proof {
                    let member = extra@[i as int];
                    assert(start.union_prefer_right(before).insert(member.0@, member.1@)
                        =~= start.union_prefer_right(before.insert(member.0@, member.1@)));
                }
                i = i + 1;
            }
            proof {
                assert(extra@.take(i as int) =~= extra@);
            }
        },
        _ => {},
    }
}

/// Builds the body of a request, where `recorded` are the messages of its recorded tool calls.
pub fn build_body_with<M>(request: &LlmRequest<M>, stream: bool, recorded: Vec<Json>) -> (r: Json)
    ensures
        r@ == request_body(*request, stream, items_view(recorded@)),
{
    let mut body: Vec<(String, Json)> = Vec::new();
    set_member(&mut body, "stream", Json::Bool(stream));
    set_member(&mut body, "model", Json::text(request.model.as_str()));
    let max_tokens: u64 = match request.max_output_tokens {
        Some(n) => n,
        None => DEFAULT_MAX_TOKENS,
    };
    set_member(&mut body, "max_tokens", Json::from_u64(max_tokens));
    add_params(&mut body, &request.api_params);
    match &request.system_instructions {
        Some(instructions) => {
            set_member(&mut body, "system", Json::text(instructions.as_str()));
        },
        None => {},
    }
    let mut messages = make_messages(&request.messages, &request.anthropic_file_ids);
    let mut recorded_messages = recorded;
    let ghost first = messages@;
    let ghost second = recorded_messages@;
    messages.append(&mut recorded_messages);
    proof {
        lemma_items_view(first);
        lemma_items_view(second);
        lemma_items_view(messages@);
        assert(items_view(messages@) =~= items_view(first) + items_view(second));
    }
    if messages.len() > 0 {
        set_member(&mut body, "messages", Json::Array(messages));
    }
    add_user(&mut body, &request.user_identity);
    add_tools(&mut body, &request.tools);
    add_extras(&mut body, &request.additional_params);
    Json::Object(body)
}

/// Builds the JSON body for the Messages API from a request.
pub fn build_request_body<M>(request: &LlmRequest<M>, stream: bool) -> (r: Json)
    ensures
        r@ == request_body(
            *request,
            stream,
            converted_items(items_view(request.raw_input_items@)),
        ),
{
    let recorded = convert_raw_input_items(request.raw_input_items.as_slice());
    build_body_with(request, stream, recorded)
}

/// The keys of the body are different texts.
proof fn lemma_keys_differ()
    ensures
        "stream"@ != "model"@,
        "stream"@ != "max_tokens"@,
        "stream"@ != "top_p"@,
        "stream"@ != "temperature"@,
        "stream"@ != "stop_sequences"@,
        "stream"@ != "system"@,
        "stream"@ != "messages"@,
        "stream"@ != "metadata"@,
        "stream"@ != "tools"@,
        "stream"@ != "tool_choice"@,
        "model"@ != "max_tokens"@,
        "model"@ != "top_p"@,
        "model"@ != "temperature"@,
        "model"@ != "stop_sequences"@,
        "model"@ != "system"@,
        "model"@ != "messages"@,
        "model"@ != "metadata"@,
        "model"@ != "tools"@,
        "model"@ != "tool_choice"@,
        "max_tokens"@ != "top_p"@,
        "max_tokens"@ != "temperature"@,
        "max_tokens"@ != "stop_sequences"@,
        "max_tokens"@ != "system"@,
        "max_tokens"@ != "messages"@,
        "max_tokens"@ != "metadata"@,
        "max_tokens"@ != "tools"@,
        "max_tokens"@ != "tool_choice"@,
        "top_p"@ != "temperature"@,
        "top_p"@ != "stop_sequences"@,
        "top_p"@ != "system"@,
        "top_p"@ != "messages"@,
        "top_p"@ != "metadata"@,
        "top_p"@ != "tools"@,
        "top_p"@ != "tool_choice"@,
        "temperature"@ != "stop_sequences"@,
        "temperature"@ != "system"@,
        "temperature"@ != "messages"@,
        "temperature"@ != "metadata"@,
        "temperature"@ != "tools"@,
        "temperature"@ != "tool_choice"@,
        "stop_sequences"@ != "system"@,
        "stop_sequences"@ != "messages"@,
        "stop_sequences"@ != "metadata"@,
        "stop_sequences"@ != "tools"@,
        "stop_sequences"@ != "tool_choice"@,
        "system"@ != "messages"@,
        "system"@ != "metadata"@,
        "system"@ != "tools"@,
        "system"@ != "tool_choice"@,
        "messages"@ != "metadata"@,
        "messages"@ != "tools"@,
        "messages"@ != "tool_choice"@,
        "metadata"@ != "tools"@,
        "metadata"@ != "tool_choice"@,
        "tools"@ != "tool_choice"@,
{
    reveal_strlit("stream");
    assert("stream"@.len() == 6);
    reveal_strlit("model");
    assert("model"@.len() == 5);
    reveal_strlit("max_tokens");
    assert("max_tokens"@.len() == 10);
    reveal_strlit("top_p");
    assert("top_p"@.len() == 5);
    reveal_strlit("temperature");
    assert("temperature"@.len() == 11);
    reveal_strlit("stop_sequences");
    assert("stop_sequences"@.len() == 14);
    reveal_strlit("system");
    assert("system"@.len() == 6);
    reveal_strlit("messages");
    assert("messages"@.len() == 8);
    reveal_strlit("metadata");
    assert("metadata"@.len() == 8);
    reveal_strlit("tools");
    assert("tools"@.len() == 5);
    reveal_strlit("tool_choice");
    assert("tool_choice"@.len() == 11);
    assert("stream"@[1] != "system"@[1]);
    assert("model"@[0] != "top_p"@[0]);
    assert("model"@[0] != "tools"@[0]);
    assert("top_p"@[2] != "tools"@[2]);
    assert("messages"@[2] != "metadata"@[2]);
    assert("temperature"@[1] != "tool_choice"@[1]);
}

/// A message says whose it is.
proof fn lemma_message_role(role: Role, content: Seq<JsonView>)
    ensures
        message_json(role, content).member_text("role"@) == Some(role_name(role)),
{
    reveal_strlit("role");
    reveal_strlit("content");
    assert("role"@.len() != "content"@.len());
}

/// The key is one of those that every body has.
pub open spec fn is_key_of_base(key: Seq<char>) -> bool {
    key == "stream"@ || key == "model"@ || key == "max_tokens"@
}

/// Every body says whether it asks for a stream, which model it is for and what its token cap
/// is; only an extra under the same key can say otherwise.
pub proof fn law_required_members<M>(
    request: LlmRequest<M>,
    stream: bool,
    recorded: Seq<JsonView>,
    key: Seq<char>,
)
    requires
        is_key_of_base(key),
    ensures
        typed_members(request, stream, recorded).contains_key(key),
        typed_members(request, stream, recorded)[key] == base_members(request, stream)[key],
        request_body(request, stream, recorded).member(key) is Some,
{
    lemma_keys_differ();
}

/// A body never sets both the temperature and `top_p`, as long as no extra does.
pub proof fn law_one_sampling_parameter<M>(
    request: LlmRequest<M>,
    stream: bool,
    recorded: Seq<JsonView>,
)
    ensures
        ({
            let body = typed_members(request, stream, recorded);
            !(body.contains_key("temperature"@) && body.contains_key("top_p"@))
        }),
{
    lemma_keys_differ();
}

/// Tools always come with the choice that forbids parallel use, and that choice never comes
/// without tools.
pub proof fn law_tools_come_with_choice<M>(
    request: LlmRequest<M>,
    stream: bool,
    recorded: Seq<JsonView>,
)
    ensures
        ({
            let body = typed_members(request, stream, recorded);
            &&& body.contains_key("tools"@) <==> tools_json(request.tools@).len() > 0
            &&& body.contains_key("tool_choice"@) <==> body.contains_key("tools"@)
            &&& body.contains_key("tool_choice"@) ==> body["tool_choice"@] == tool_choice_json()
        }),
{
    lemma_keys_differ();
}

/// The messages stand in the body where there are any, those of the request before the
/// recorded ones, and not at all where there is none.
pub proof fn law_messages_member<M>(
    request: LlmRequest<M>,
    stream: bool,
    recorded: Seq<JsonView>,
)
    ensures
        ({
            let body = typed_members(request, stream, recorded);
            let messages = plain_messages(request.messages@, request.anthropic_file_ids@)
                + recorded;
            if messages.len() > 0 {
                body.contains_key("messages"@) && body["messages"@] == JsonView::Array(messages)
            } else {
                !body.contains_key("messages"@)
            }
        }),
{
    lemma_keys_differ();
}

/// Extras win: under each of their keys the body holds what they hold, and under every other
/// key what it would hold without them.
pub proof fn law_extras_win<M>(
    request: LlmRequest<M>,
    stream: bool,
    recorded: Seq<JsonView>,
    key: Seq<char>,
)
    ensures
        ({
            let body = request_body(request, stream, recorded).member(key);
            let typed = JsonView::Object(typed_members(request, stream, recorded)).member(key);
            match request.additional_params {
                Some(extra) => match extra@.member(key) {
                    Some(value) => body == Some(value),
                    None => body == typed,
                },
                None => body == typed,
            }
        }),
{
}

/// No message of the system is sent as a message: each one is the user's or the assistant's.
pub proof fn law_messages_have_a_speaker(
    messages: Seq<LlmMessage>,
    ids: Map<Seq<char>, Seq<char>>,
)
    ensures
        forall|i: int|
            0 <= i < plain_messages(messages, ids).len() ==> (#[trigger] plain_messages(
                messages,
                ids,
            )[i]).member_text("role"@) == Some("user"@) || plain_messages(
                messages,
                ids,
            )[i].member_text("role"@) == Some("assistant"@),
    decreases messages.len(),
{
    if messages.len() > 0 {
        law_messages_have_a_speaker(messages.drop_last(), ids);
        lemma_message_role(messages.last().role, content_blocks(messages.last().content@, ids));
        let all = plain_messages(messages, ids);
        let before = plain_messages(messages.drop_last(), ids);
        assert forall|i: int| 0 <= i < all.len() implies (#[trigger] all[i]).member_text("role"@)
            == Some("user"@) || all[i].member_text("role"@) == Some("assistant"@) by {
            if i < before.len() {
                assert(all[i] == before[i]);
            }
        }
    }
}

/// An image is only ever named by an id that Anthropic gave: no block carries the primary
/// provider's id unless the lookup maps to it.
pub proof fn law_images_have_known_ids(
    parts: Seq<ContentPart>,
    ids: Map<Seq<char>, Seq<char>>,
    i: int,
    file_id: Seq<char>,
)
    requires
        0 <= i < content_blocks(parts, ids).len(),
        content_blocks(parts, ids)[i] == image_block(file_id),
    ensures
        exists|primary: Seq<char>| #[trigger] ids.contains_key(primary) && ids[primary] == file_id,
    decreases parts.len(),
{
    let before = content_blocks(parts.drop_last(), ids);
    if i < before.len() {
        law_images_have_known_ids(parts.drop_last(), ids, i, file_id);
    } else {
        reveal_strlit("type");
        reveal_strlit("text");
        reveal_strlit("image");
        reveal_strlit("source");
        reveal_strlit("file_id");
        assert("type"@[1] != "text"@[1]);
        let block = content_blocks(parts, ids)[i];
        assert(block.member("type"@) == Some(JsonView::Text("image"@)));
        match parts.last() {
            ContentPart::Text { text } => {
                assert(text_block(text@).member("type"@) == Some(JsonView::Text("text"@)));
            },
            ContentPart::Image { file_id: primary } => {
                let source = block.member("source"@)->0;
                assert(source.member("file_id"@) == Some(JsonView::Text(file_id)));
                assert(ids[primary@] == file_id);
            },
        }
    }
}

/// Every piece of text is sent, and file search never is.
pub proof fn law_what_is_dropped(part: ContentPart, tool: LlmTool, ids: Map<Seq<char>, Seq<char>>)
    ensures
        part_block(part, ids) is None <==> (part matches ContentPart::Image { file_id }
            && !ids.contains_key(file_id@)),
        tool_json(tool) is None <==> tool is FileSearch,
{
}

/// The definition of a function tool tells the model its name, its description and its
/// parameters, as the tool has them. The two native server tools are told by their types and
/// names. Each definition holds this and nothing else.
pub proof fn law_tools_are_told_as_they_are(tool: LlmTool)
    ensures
        match tool {
            LlmTool::Function { name, description, parameters } => {
                &&& tool_json(tool) is Some
                &&& tool_json(tool)->0.member("name"@) == Some(JsonView::Text(name@))
                &&& tool_json(tool)->0.member("description"@) == Some(JsonView::Text(description@))
                &&& tool_json(tool)->0.member("input_schema"@) == Some(parameters@)
                &&& tool_json(tool)->0->Object_0.dom() == set![
                    "name"@,
                    "description"@,
                    "input_schema"@,
                ]
            },
            LlmTool::WebSearch { .. } => {
                &&& tool_json(tool) is Some
                &&& tool_json(tool)->0.member("type"@) == Some(
                    JsonView::Text("web_search_20260209"@),
                )
                &&& tool_json(tool)->0.member("name"@) == Some(JsonView::Text("web_search"@))
                &&& tool_json(tool)->0->Object_0.dom() == set!["type"@, "name"@]
            },
            LlmTool::CodeInterpreter { .. } => {
                &&& tool_json(tool) is Some
                &&& tool_json(tool)->0.member("type"@) == Some(
                    JsonView::Text("code_execution_20250825"@),
                )
                &&& tool_json(tool)->0.member("name"@) == Some(JsonView::Text("code_execution"@))
                &&& tool_json(tool)->0->Object_0.dom() == set!["type"@, "name"@]
            },
            LlmTool::FileSearch { .. } => tool_json(tool) is None,
        },
{
    reveal_strlit("name");
    reveal_strlit("description");
    reveal_strlit("input_schema");
    reveal_strlit("type");
    assert("name"@.len() == 4 && "description"@.len() == 11 && "input_schema"@.len() == 12
        && "type"@.len() == 4);
    assert("name"@[0] == 'n' && "type"@[0] == 't');
    if let Some(json) = tool_json(tool) {
        if tool is Function {
            assert(json->Object_0.dom() =~= set!["name"@, "description"@, "input_schema"@]);
        } else {
            assert(json->Object_0.dom() =~= set!["type"@, "name"@]);
        }
    }
}

/// Lists of tools one behind the other are told as the definitions of the first and then those of
/// the second; one tool is told by its own definition, or not at all.
pub proof fn law_tools_are_told_in_order(a: Seq<LlmTool>, b: Seq<LlmTool>)
    ensures
        tools_json(a + b) == tools_json(a) + tools_json(b),
        b.len() == 1 ==> tools_json(b) == match tool_json(b[0]) {
            Some(tool) => seq![tool],
            None => Seq::empty(),
        },
    decreases b.len(),
{
    if b.len() == 0 {
        assert(a + b =~= a);
        assert(tools_json(a) + tools_json(b) =~= tools_json(a));
    } else {
        law_tools_are_told_in_order(a, b.drop_last());
        assert((a + b).drop_last() =~= a + b.drop_last());
        assert(tools_json(a + b) =~= tools_json(a) + tools_json(b));
        if b.len() == 1 {
            assert(b.drop_last() =~= Seq::empty());
            assert(tools_json(b) =~= match tool_json(b[0]) {
                Some(tool) => seq![tool],
                None => Seq::empty(),
            });
        }
    }
}

/// A piece of text is sent as the same text, and an image by the id that it has with Anthropic.
pub proof fn law_parts_are_sent_as_they_are(part: ContentPart, ids: Map<Seq<char>, Seq<char>>)
    ensures
        match part {
            ContentPart::Text { text } => {
                &&& part_block(part, ids) is Some
                &&& part_block(part, ids)->0.member("type"@) == Some(JsonView::Text("text"@))
                &&& part_block(part, ids)->0.member("text"@) == Some(JsonView::Text(text@))
            },
            ContentPart::Image { file_id } => {
                &&& part_block(part, ids) is Some <==> ids.contains_key(file_id@)
                &&& part_block(part, ids) matches Some(block) ==> {
                    &&& block.member("type"@) == Some(JsonView::Text("image"@))
                    &&& block.member("source"@) matches Some(source) && {
                        &&& source.member("type"@) == Some(JsonView::Text("file"@))
                        &&& source.member("file_id"@) == Some(JsonView::Text(ids[file_id@]))
                    }
                }
            },
        },
{
    reveal_strlit("type");
    reveal_strlit("text");
    reveal_strlit("source");
    reveal_strlit("file_id");
    assert("type"@.len() == 4 && "text"@.len() == 4 && "source"@.len() == 6 && "file_id"@.len()
        == 7);
    assert("type"@[1] == 'y' && "text"@[1] == 'e');
}

/// Pieces one behind the other are sent as the blocks of the first and then those of the second;
/// one piece is sent as its own block, or not at all.
pub proof fn law_parts_are_sent_in_order(
    a: Seq<ContentPart>,
    b: Seq<ContentPart>,
    ids: Map<Seq<char>, Seq<char>>,
)
    ensures
        content_blocks(a + b, ids) == content_blocks(a, ids) + content_blocks(b, ids),
        b.len() == 1 ==> content_blocks(b, ids) == match part_block(b[0], ids) {
            Some(block) => seq![block],
            None => Seq::empty(),
        },
    decreases b.len(),
{
    if b.len() == 0 {
        assert(a + b =~= a);
        assert(content_blocks(a, ids) + content_blocks(b, ids) =~= content_blocks(a, ids));
    } else {
        law_parts_are_sent_in_order(a, b.drop_last(), ids);
        assert((a + b).drop_last() =~= a + b.drop_last());
        assert(content_blocks(a + b, ids) =~= content_blocks(a, ids) + content_blocks(b, ids));
        if b.len() == 1 {
            assert(b.drop_last() =~= Seq::empty());
            assert(content_blocks(b, ids) =~= match part_block(b[0], ids) {
                Some(block) => seq![block],
                None => Seq::empty(),
            });
        }
    }
}

/// Messages one behind the other are sent as those of the first and then those of the second. A
/// message of the user or the assistant is sent as one of the same role with all its blocks, and
/// one of the system is not sent among them.
pub proof fn law_messages_are_sent_in_order(
    a: Seq<LlmMessage>,
    b: Seq<LlmMessage>,
    ids: Map<Seq<char>, Seq<char>>,
)
    ensures
        plain_messages(a + b, ids) == plain_messages(a, ids) + plain_messages(b, ids),
        b.len() == 1 && b[0].role == Role::System ==> plain_messages(b, ids).len() == 0,
        b.len() == 1 && b[0].role != Role::System ==> {
            &&& plain_messages(b, ids).len() == 1
            &&& plain_messages(b, ids)[0].member("role"@) == Some(
                JsonView::Text(
                    if b[0].role == Role::User {
                        "user"@
                    } else {
                        "assistant"@
                    },
                ),
            )
            &&& plain_messages(b, ids)[0].member("content"@) == Some(
                JsonView::Array(content_blocks(b[0].content@, ids)),
            )
        },
    decreases b.len(),
{
    if b.len() == 0 {
        assert(a + b =~= a);
        assert(plain_messages(a, ids) + plain_messages(b, ids) =~= plain_messages(a, ids));
    } else {
        law_messages_are_sent_in_order(a, b.drop_last(), ids);
        assert((a + b).drop_last() =~= a + b.drop_last());
        assert(plain_messages(a + b, ids) =~= plain_messages(a, ids) + plain_messages(b, ids));
        if b.len() == 1 {
            assert(b.drop_last() =~= Seq::empty());
            law_messages_hold_role_and_content(b[0].role, content_blocks(b[0].content@, ids));
        }
    }
}

/// A body tells whether the response is to be streamed, the model, and the token cap, which is
/// the request's own where it has one.
pub proof fn law_body_tells_model_and_limits<M>(
    request: LlmRequest<M>,
    stream: bool,
    recorded: Seq<JsonView>,
)
    ensures
        ({
            let body = JsonView::Object(typed_members(request, stream, recorded));
            &&& body.member("stream"@) == Some(JsonView::Bool(stream))
            &&& body.member("model"@) == Some(JsonView::Text(request.model@))
            &&& body.member("max_tokens"@) == Some(
                JsonView::Number(
                    NumberView::Int(
                        match request.max_output_tokens {
                            Some(n) => n as int,
                            None => 4096,
                        },
                    ),
                ),
            )
        }),
{
    lemma_keys_differ();
}

/// Of the sampling parameters a body has `top_p` alone where that is below one, and the
/// temperature alone otherwise, each with its own value; the stop sequences are all there, in
/// their order. Without parameters it has none of these.
pub proof fn law_body_tells_sampling<M>(
    request: LlmRequest<M>,
    stream: bool,
    recorded: Seq<JsonView>,
)
    ensures
        ({
            let body = JsonView::Object(typed_members(request, stream, recorded));
            match request.api_params {
                Some(p) => {
                    &&& body.member("top_p"@) == if p.top_p.below_one() {
                        Some(p.top_p.json())
                    } else {
                        None
                    }
                    &&& body.member("temperature"@) == if p.top_p.below_one() {
                        None
                    } else {
                        Some(p.temperature.json())
                    }
                    &&& p.stop@.len() == 0 ==> body.member("stop_sequences"@) is None
                    &&& p.stop@.len() > 0 ==> {
                        &&& body.member("stop_sequences"@) matches Some(JsonView::Array(stops))
                        &&& stops.len() == p.stop@.len()
                        &&& forall|i: int|
                            0 <= i < stops.len() ==> #[trigger] stops[i] == JsonView::Text(
                                p.stop@[i]@,
                            )
                    }
                },
                None => {
                    &&& body.member("top_p"@) is None
                    &&& body.member("temperature"@) is None
                    &&& body.member("stop_sequences"@) is None
                },
            }
        }),
{
    lemma_keys_differ();
}

/// A body has the system's instructions where the request has any, and the user by tenant and
/// name where the request tells one.
pub proof fn law_body_tells_system_and_user<M>(
    request: LlmRequest<M>,
    stream: bool,
    recorded: Seq<JsonView>,
)
    ensures
        ({
            let body = JsonView::Object(typed_members(request, stream, recorded));
            &&& match request.system_instructions {
                Some(text) => body.member("system"@) == Some(JsonView::Text(text@)),
                None => body.member("system"@) is None,
            }
            &&& match request.user_identity {
                Some(user) => body.member("metadata"@) matches Some(metadata) && metadata.member(
                    "user_id"@,
                ) == Some(JsonView::Text(user.tenant_id@ + ":"@ + user.user_id@))
                    && metadata->Object_0.dom() == set!["user_id"@],
                None => body.member("metadata"@) is None,
            }
        }),
{
    lemma_keys_differ();
    if let Some(user) = request.user_identity {
        let metadata = typed_members(request, stream, recorded)["metadata"@];
        assert(metadata->Object_0.dom() =~= set!["user_id"@]);
    }
}

/// A body tells all definitions of the tools, and with them that the model may choose one of them
/// at a time; it tells neither where there is no definition.
pub proof fn law_body_tells_tools<M>(
    request: LlmRequest<M>,
    stream: bool,
    recorded: Seq<JsonView>,
)
    ensures
        ({
            let body = JsonView::Object(typed_members(request, stream, recorded));
            let tools = tools_json(request.tools@);
            if tools.len() > 0 {
                &&& body.member("tools"@) == Some(JsonView::Array(tools))
                &&& body.member("tool_choice"@) matches Some(choice) && {
                    &&& choice.member("type"@) == Some(JsonView::Text("auto"@))
                    &&& choice.member("disable_parallel_tool_use"@) == Some(JsonView::Bool(true))
                    &&& choice->Object_0.dom() == set!["type"@, "disable_parallel_tool_use"@]
                }
            } else {
                body.member("tools"@) is None && body.member("tool_choice"@) is None
            }
        }),
{
    lemma_keys_differ();
    reveal_strlit("type");
    reveal_strlit("disable_parallel_tool_use");
    assert("type"@.len() == 4 && "disable_parallel_tool_use"@.len() == 25);
    assert(tool_choice_json()->Object_0.dom() =~= set!["type"@, "disable_parallel_tool_use"@]);
}

/// A body holds nothing beside what is told of it here and the extras.
pub proof fn law_body_holds_nothing_else<M>(
    request: LlmRequest<M>,
    stream: bool,
    recorded: Seq<JsonView>,
    key: Seq<char>,
)
    requires
        typed_members(request, stream, recorded).contains_key(key),
    ensures
        key == "stream"@ || key == "model"@ || key == "max_tokens"@ || key == "top_p"@ || key
            == "temperature"@ || key == "stop_sequences"@ || key == "system"@ || key
            == "messages"@ || key == "metadata"@ || key == "tools"@ || key == "tool_choice"@,
{
}

}
