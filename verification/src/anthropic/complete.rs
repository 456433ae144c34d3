//! Answers to requests that are not streamed.

use vstd::prelude::*;

use crate::anthropic::error::{
    check_success, diagnostics_of, error_from_reading, format_diag_headers, is_diagnostic_text,
    is_error_of, is_success, retry_after, retry_after_of,
};
use crate::anthropic::event::{
    at_most_count, at_most_text, counts_under, has_text, UNEXPECTED_SHAPE,
};
use crate::anthropic::stream::{
    check_total, normalize_usage, normalized_usage, outcome_of, total_fits, StateView,
};
use crate::anthropic::wire::{
    check_structure, field_of, is_structure, optional_count, optional_text, read_field,
    read_optional_count, read_optional_text, read_required_text, required_text, text_view,
};
use crate::headers::header_contents;
use crate::json::{
    items_view, lemma_items_view, parsed_bytes, reading_view, Json, JsonView, NumberView,
};
use crate::llm::{
    accepts_any_text, ErrorView, LlmProviderError, ResponseResult, ResultView, TranslatedView,
};
use crate::text::{lossy_text, str_eq, text_from_bytes};

verus! {

/// Why an answer with a tool call is refused.
pub const TOOL_USE_DETAIL: &'static str =
    "Anthropic returned a tool_use block on a non-streaming complete() call; tools are not supported in this mode";

/// One block of an answer.
#[derive(Debug)]
pub struct AnthropicContentBlock {
    pub block_type: String,
    pub text: String,
}

/// The tokens that an answer reports. Cached ones are not among `input_tokens`.
#[derive(Debug, Clone, Copy, PartialEq, Eq, Structural)]
pub struct AnthropicUsage {
    pub input_tokens: i64,
    pub output_tokens: i64,
    pub cache_read_input_tokens: i64,
    pub cache_creation_input_tokens: i64,
}

/// An answer that came as a whole.
#[derive(Debug)]
pub struct AnthropicMessageResponse {
    pub id: String,
    pub content: Vec<AnthropicContentBlock>,
    pub usage: AnthropicUsage,
}

/// What a block says.
pub struct BlockView {
    pub block_type: Seq<char>,
    pub text: Seq<char>,
}

/// What an answer says.
pub struct ResponseView {
    pub id: Seq<char>,
    pub content: Seq<BlockView>,
    pub usage: AnthropicUsage,
}

impl View for AnthropicContentBlock {
    type V = BlockView;

    open spec fn view(&self) -> BlockView {
        BlockView { block_type: self.block_type@, text: self.text@ }
    }
}

/// The views of a sequence of blocks.
pub open spec fn block_views(blocks: Seq<AnthropicContentBlock>) -> Seq<BlockView> {
    Seq::new(blocks.len(), |i: int| blocks[i]@)
}

impl View for AnthropicMessageResponse {
    type V = ResponseView;

    open spec fn view(&self) -> ResponseView {
        ResponseView { id: self.id@, content: block_views(self.content@), usage: self.usage }
    }
}

/// A block: its type, and a text that may be left out.
pub open spec fn block_of(v: JsonView) -> Option<BlockView> {
    match (required_text(v, "type"@, 0), optional_text(v, "text"@, 1)) {
        (Some(block_type), Some(text)) => if is_structure(v, 2) {
            Some(BlockView { block_type, text })
        } else {
            None
        },
        _ => None,
    }
}

/// A list of blocks, where every item is one.
pub open spec fn blocks_of(items: Seq<JsonView>) -> Option<Seq<BlockView>> {
    if forall|i: int| 0 <= i < items.len() ==> block_of(#[trigger] items[i]) is Some {
        Some(Seq::new(items.len(), |i: int| block_of(items[i])->0))
    } else {
        None
    }
}

/// The blocks of an answer, of which there are none where the field is left out.
pub open spec fn content_of(v: Option<JsonView>) -> Option<Seq<BlockView>> {
    match v {
        Some(JsonView::Array(items)) => blocks_of(items),
        Some(_) => None,
        None => Some(Seq::empty()),
    }
}

/// The usage of an answer, in which each count may be left out, as may the whole.
pub open spec fn usage_counts_of(v: Option<JsonView>) -> Option<AnthropicUsage> {
    let counts = match v {
        Some(counts) => counts,
        None => JsonView::empty_object(),
    };
    match (
        is_structure(counts, 4),
        optional_count(counts, "input_tokens"@, 0),
        optional_count(counts, "output_tokens"@, 1),
        optional_count(counts, "cache_read_input_tokens"@, 2),
        optional_count(counts, "cache_creation_input_tokens"@, 3),
    ) {
        (true, Some(input), Some(output), Some(read), Some(creation)) => Some(
            AnthropicUsage {
                input_tokens: input,
                output_tokens: output,
                cache_read_input_tokens: read,
                cache_creation_input_tokens: creation,
            },
        ),
        _ => None,
    }
}

/// The answer that a value is.
pub open spec fn response_of(v: JsonView) -> Option<ResponseView> {
    match (
        is_structure(v, 3),
        required_text(v, "id"@, 0),
        content_of(field_of(v, "content"@, 1)),
        usage_counts_of(field_of(v, "usage"@, 2)),
    ) {
        (true, Some(id), Some(content), Some(usage)) => Some(ResponseView { id, content, usage }),
        _ => None,
    }
}

/// The answer that a response brings: a success whose body is an answer.
pub open spec fn answer_of(status: u16, reading: Result<JsonView, Seq<char>>) -> Option<
    ResponseView,
> {
    match reading {
        Ok(v) => if is_success(status) {
            response_of(v)
        } else {
            None
        },
        Err(_) => None,
    }
}

/// One of the blocks calls a tool.
pub open spec fn calls_tool(blocks: Seq<BlockView>) -> bool {
    exists|i: int| 0 <= i < blocks.len() && (#[trigger] blocks[i]).block_type == "tool_use"@
}

/// The texts of the text blocks, one after the other.
pub open spec fn text_of_blocks(blocks: Seq<BlockView>) -> Seq<char>
    decreases blocks.len(),
{
    if blocks.len() == 0 {
        Seq::empty()
    } else if blocks.last().block_type == "text"@ {
        text_of_blocks(blocks.drop_last()) + blocks.last().text
    } else {
        text_of_blocks(blocks.drop_last())
    }
}

/// A block as JSON.
pub open spec fn block_json(block: BlockView) -> JsonView {
    JsonView::Object(
        Map::empty().insert("type"@, JsonView::Text(block.block_type)).insert(
            "text"@,
            JsonView::Text(block.text),
        ),
    )
}

/// A count as JSON.
pub open spec fn count_json(n: i64) -> JsonView {
    JsonView::Number(NumberView::Int(n as int))
}

/// An answer as JSON: the fields that were read of it, those that were left out with their
/// defaults.
pub open spec fn response_json(response: ResponseView) -> JsonView {
    JsonView::Object(
        Map::empty().insert("id"@, JsonView::Text(response.id)).insert(
            "content"@,
            JsonView::Array(
                Seq::new(response.content.len(), |i: int| block_json(response.content[i])),
            ),
        ).insert(
            "usage"@,
            JsonView::Object(
                Map::empty().insert("input_tokens"@, count_json(response.usage.input_tokens)).insert(
                    "output_tokens"@,
                    count_json(response.usage.output_tokens),
                ).insert(
                    "cache_read_input_tokens"@,
                    count_json(response.usage.cache_read_input_tokens),
                ).insert(
                    "cache_creation_input_tokens"@,
                    count_json(response.usage.cache_creation_input_tokens),
                ),
            ),
        ),
    )
}

/// The answer's input tokens can be summed up, where they have to be.
pub open spec fn response_fits(response: ResponseView) -> bool {
    calls_tool(response.content) || total_fits(
        response.usage.input_tokens,
        response.usage.cache_read_input_tokens,
        response.usage.cache_creation_input_tokens,
    )
}

/// What an answer comes to. One that calls a tool is refused: this way of asking cannot run
/// tools, and to drop the call would return an empty text.
pub open spec fn completed(response: ResponseView) -> Result<ResultView, ErrorView> {
    if calls_tool(response.content) {
        Err(ErrorView::InvalidResponse { detail: TOOL_USE_DETAIL@ })
    } else {
        Ok(
            ResultView {
                content: text_of_blocks(response.content),
                usage: normalized_usage(
                    response.usage.input_tokens,
                    response.usage.output_tokens,
                    response.usage.cache_read_input_tokens,
                    response.usage.cache_creation_input_tokens,
                ),
                response_id: response.id,
                citations: Seq::empty(),
                raw_response: response_json(response),
            },
        )
    }
}

/// What a result of this library says.
pub open spec fn result_view(r: Result<ResponseResult, LlmProviderError>) -> Result<
    ResultView,
    ErrorView,
> {
    match r {
        Ok(result) => Ok(result@),
        Err(error) => Err(error@),
    }
}

fn decode_block(v: &Json) -> (r: Option<AnthropicContentBlock>)
    ensures
        match r {
            Some(block) => block_of(v@) == Some(block@),
            None => block_of(v@) is None,
        },
{
    if !check_structure(v, 2) {
        return None;
    }
    match (read_required_text(v, "type", 0), read_optional_text(v, "text", 1)) {
        (Some(block_type), Some(text)) => Some(AnthropicContentBlock { block_type, text }),
        _ => None,
    }
}

fn decode_blocks(items: &Vec<Json>) -> (r: Option<Vec<AnthropicContentBlock>>)
    ensures
        match r {
            Some(blocks) => blocks_of(items_view(items@)) == Some(block_views(blocks@)),
            None => blocks_of(items_view(items@)) is None,
        },
{
    proof {
        lemma_items_view(items@);
    }
    let ghost values = items_view(items@);
    let mut blocks: Vec<AnthropicContentBlock> = Vec::new();
    let mut i: usize = 0;
    while i < items.len()
        invariant
            i <= items@.len(),
            values == items_view(items@),
            values.len() == items@.len(),
            forall|j: int| 0 <= j < items@.len() ==> #[trigger] values[j] == items@[j]@,
            blocks@.len() == i,
            forall|j: int|
                0 <= j < i ==> block_of(#[trigger] values[j]) == Some(block_views(blocks@)[j]),
        decreases items@.len() - i,
    {
        proof {
            assert(values[i as int] == items@[i as int]@);
        }
        match decode_block(&items[i]) {
            Some(block) => {
                blocks.push(block);
            },
            None => {
                return None;
            },
        }
        i = i + 1;
    }
    proof {
        assert(blocks_of(values)->0 =~= block_views(blocks@));
    }
    Some(blocks)
}

fn decode_content(v: Option<&Json>) -> (r: Option<Vec<AnthropicContentBlock>>)
    ensures
        ({
            let view = match v {
                Some(j) => Some(j@),
                None => None,
            };
            match r {
                Some(blocks) => content_of(view) == Some(block_views(blocks@)),
                None => content_of(view) is None,
            }
        }),
{
    match v {
        Some(Json::Array(items)) => decode_blocks(items),
        Some(_) => None,
        None => {
            let blocks: Vec<AnthropicContentBlock> = Vec::new();
            proof {
                assert(block_views(blocks@) =~= Seq::empty());
            }
            Some(blocks)
        },
    }
}

fn decode_usage(v: Option<&Json>) -> (r: Option<AnthropicUsage>)
    ensures
        r == usage_counts_of(
            match v {
                Some(j) => Some(j@),
                None => None,
            },
        ),
{
    let empty = Json::object();
    let counts = match v {
        Some(counts) => counts,
        None => &empty,
    };
    if !check_structure(counts, 4) {
        return None;
    }
    match (
        read_optional_count(counts, "input_tokens", 0),
        read_optional_count(counts, "output_tokens", 1),
        read_optional_count(counts, "cache_read_input_tokens", 2),
        read_optional_count(counts, "cache_creation_input_tokens", 3),
    ) {
        (Some(input), Some(output), Some(read), Some(creation)) => Some(
            AnthropicUsage {
                input_tokens: input,
                output_tokens: output,
                cache_read_input_tokens: read,
                cache_creation_input_tokens: creation,
            },
        ),
        _ => None,
    }
}

/// Decodes an answer.
pub fn decode_response(v: &Json) -> (r: Option<AnthropicMessageResponse>)
    ensures
        match r {
            Some(response) => response_of(v@) == Some(response@),
            None => response_of(v@) is None,
        },
{
    if !check_structure(v, 3) {
        return None;
    }
    let id = match read_required_text(v, "id", 0) {
        Some(id) => id,
        None => return None,
    };
    let content = match decode_content(read_field(v, "content", 1)) {
        Some(content) => content,
        None => return None,
    };
    match decode_usage(read_field(v, "usage", 2)) {
        Some(usage) => Some(AnthropicMessageResponse { id, content, usage }),
        None => None,
    }
}

/// Whether one of the blocks calls a tool.
fn check_calls_tool(blocks: &Vec<AnthropicContentBlock>) -> (r: bool)
    ensures
        r == calls_tool(block_views(blocks@)),
{
    let mut i: usize = 0;
    while i < blocks.len()
        invariant
            i <= blocks@.len(),
            forall|j: int|
                0 <= j < i ==> (#[trigger] block_views(blocks@)[j]).block_type != "tool_use"@,
        decreases blocks@.len() - i,
    {
        if str_eq(blocks[i].block_type.as_str(), "tool_use") {
            proof {
                assert(block_views(blocks@)[i as int].block_type == "tool_use"@);
            }
            return true;
        }
        i = i + 1;
    }
    false
}

/// The texts of the text blocks, one after the other.
fn join_text_blocks(blocks: &Vec<AnthropicContentBlock>) -> (r: String)
    ensures
        r@ == text_of_blocks(block_views(blocks@)),
{
    let mut out = String::new();
    let mut i: usize = 0;
    while i < blocks.len()
        invariant
            i <= blocks@.len(),
            out@ == text_of_blocks(block_views(blocks@).take(i as int)),
        decreases blocks@.len() - i,
    {
        proof {
            let views = block_views(blocks@);
            assert(views.take(i + 1).drop_last() =~= views.take(i as int));
            assert(views.take(i + 1).last() == blocks@[i as int]@);
        }
        if str_eq(blocks[i].block_type.as_str(), "text") {
            out.append(blocks[i].text.as_str());
        }
        i = i + 1;
    }
    proof {
        assert(block_views(blocks@).take(i as int) =~= block_views(blocks@));
    }
    out
}

/// An answer as JSON.
fn response_to_json(response: &AnthropicMessageResponse) -> (r: Json)
    ensures
        r@ == response_json(response@),
{
    let mut items: Vec<Json> = Vec::new();
    let mut i: usize = 0;
    while i < response.content.len()
        invariant
            i <= response.content@.len(),
            items@.len() == i,
            forall|j: int|
                0 <= j < i ==> (#[trigger] items@[j])@ == block_json(response.content@[j]@),
        decreases response.content@.len() - i,
    {
        let mut block = Json::object();
        block.set("type", Json::text(response.content[i].block_type.as_str()));
        block.set("text", Json::text(response.content[i].text.as_str()));
        items.push(block);
        i = i + 1;
    }
    proof {
        lemma_items_view(items@);
        assert(items_view(items@) =~= Seq::new(
            response@.content.len(),
            |k: int| block_json(response@.content[k]),
        ));
    }
    let mut usage = Json::object();
    usage.set("input_tokens", Json::from_i64(response.usage.input_tokens));
    usage.set("output_tokens", Json::from_i64(response.usage.output_tokens));
    usage.set("cache_read_input_tokens", Json::from_i64(response.usage.cache_read_input_tokens));
    usage.set(
        "cache_creation_input_tokens",
        Json::from_i64(response.usage.cache_creation_input_tokens),
    );
    let mut out = Json::object();
    out.set("id", Json::text(response.id.as_str()));
    out.set("content", Json::Array(items));
    out.set("usage", usage);
    out
}

/// Converts a decoded answer into a `ResponseResult`.
///
/// Answers with `tool_use` blocks are refused. Cached tokens, which the provider reports apart,
/// are summed into the input total, and stay visible on their own.
pub fn build_complete_result(response: AnthropicMessageResponse) -> (r: Result<
    ResponseResult,
    LlmProviderError,
>)
    requires
        response_fits(response@),
    ensures
        result_view(r) == completed(response@),
{
    if check_calls_tool(&response.content) {
        return Err(LlmProviderError::InvalidResponse { detail: TOOL_USE_DETAIL.to_owned() });
    }
    let content = join_text_blocks(&response.content);
    let usage = normalize_usage(
        response.usage.input_tokens,
        response.usage.output_tokens,
        response.usage.cache_read_input_tokens,
        response.usage.cache_creation_input_tokens,
    );
    let raw_response = response_to_json(&response);
    Ok(
        ResponseResult {
            content,
            usage,
            response_id: response.id,
            citations: Vec::new(),
            raw_response,
        },
    )
}

/// Whether the answer's input tokens can be summed up, where they have to be.
fn check_response_fits(response: &AnthropicMessageResponse) -> (r: bool)
    ensures
        r == response_fits(response@),
{
    check_calls_tool(&response.content) || check_total(
        response.usage.input_tokens,
        response.usage.cache_read_input_tokens,
        response.usage.cache_creation_input_tokens,
    )
}

/// What a response to a request that is not streamed comes to.
#[derive(Debug)]
pub enum Completion {
    /// The response is an answer.
    Answered(Result<ResponseResult, LlmProviderError>),
    /// The response is none; `op` is what the log calls the failure, and `parse_error` is why a
    /// success could not be read.
    Refused { op: &'static str, parse_error: Option<String>, error: LlmProviderError },
    /// The response is an answer whose input tokens are more than can be counted.
    Uncountable,
}

/// What the log calls a response that is no answer.
pub open spec fn refusal_op(status: u16) -> Seq<char> {
    if is_success(status) {
        "complete (body parse failed)"@
    } else {
        "complete"@
    }
}

/// Why a success could not be read as an answer.
pub open spec fn refusal_reason(status: u16, reading: Result<JsonView, Seq<char>>) -> Option<
    Seq<char>,
> {
    if is_success(status) {
        match reading {
            Ok(_) => Some(UNEXPECTED_SHAPE@),
            Err(reason) => Some(reason),
        }
    } else {
        None
    }
}

/// `completion` is what a response comes to: a response with this status, this wait and these
/// diagnostic headers, where `reading` is what a JSON parser makes of its body and `body` is the
/// body as text.
pub open spec fn is_completion_of<S: Fn(&str) -> String>(
    sanitize: S,
    status: u16,
    retry_after_secs: Option<u64>,
    diagnostics: Seq<char>,
    reading: Result<JsonView, Seq<char>>,
    body: Seq<char>,
    completion: Completion,
) -> bool {
    match answer_of(status, reading) {
        Some(response) => if response_fits(response) {
            completion matches Completion::Answered(r) && result_view(r) == completed(response)
        } else {
            completion is Uncountable
        },
        None => completion matches Completion::Refused { op, parse_error, error } && {
            &&& op@ == refusal_op(status)
            &&& text_view(parse_error) == refusal_reason(status, reading)
            &&& is_error_of(
                sanitize,
                status,
                retry_after_secs,
                diagnostics,
                reading,
                body,
                error@,
            )
        },
    }
}

/// Reads the answer that a response brings.
fn read_answer(status: u16, reading: &Result<Json, String>) -> (r: Option<AnthropicMessageResponse>)
    ensures
        match r {
            Some(response) => answer_of(status, reading_view(*reading)) == Some(response@),
            None => answer_of(status, reading_view(*reading)) is None,
        },
{
    match reading {
        Ok(v) => if check_success(status) {
            decode_response(v)
        } else {
            None
        },
        Err(_) => None,
    }
}

/// What a response comes to, given its diagnostic headers, what a JSON parser makes of its body
/// and the body as text.
pub fn completion_from_reading<S: Fn(&str) -> String>(
    status: u16,
    retry_after_secs: Option<u64>,
    diagnostics: &str,
    reading: Result<Json, String>,
    body: &str,
    sanitize: &S,
) -> (r: Completion)
    requires
        accepts_any_text(*sanitize),
    ensures
        is_completion_of(
            *sanitize,
            status,
            retry_after_secs,
            diagnostics@,
            reading_view(reading),
            body@,
            r,
        ),
{
    match read_answer(status, &reading) {
        Some(response) => if check_response_fits(&response) {
            Completion::Answered(build_complete_result(response))
        } else {
            Completion::Uncountable
        },
        None => {
            let parse_error: Option<String> = if check_success(status) {
                match &reading {
                    Ok(_) => Some(UNEXPECTED_SHAPE.to_owned()),
                    Err(reason) => Some(reason.clone()),
                }
            } else {
                None
            };
            let op = if check_success(status) {
                "complete (body parse failed)"
            } else {
                "complete"
            };
            Completion::Refused {
                op,
                parse_error,
                error: error_from_reading(
                    status,
                    retry_after_secs,
                    diagnostics,
                    reading,
                    body,
                    sanitize,
                ),
            }
        },
    }
}

/// What the response to a request that is not streamed comes to.
pub fn complete_response<S: Fn(&str) -> String>(
    status: u16,
    headers: &http::HeaderMap<http::HeaderValue>,
    bytes: &[u8],
    sanitize: &S,
) -> (r: Completion)
    requires
        accepts_any_text(*sanitize),
    ensures
        is_completion_of(
            *sanitize,
            status,
            retry_after_of(header_contents(*headers)),
            diagnostics_of(header_contents(*headers)),
            parsed_bytes(bytes@),
            lossy_text(bytes@),
            r,
        ),
        is_diagnostic_text(
            header_contents(*headers),
            diagnostics_of(header_contents(*headers)),
        ),
{
    let body = text_from_bytes(bytes);
    let diagnostics = format_diag_headers(headers);
    completion_from_reading(
        status,
        retry_after(headers),
        diagnostics.as_str(),
        Json::parse_bytes(bytes),
        body.as_str(),
        sanitize,
    )
}

/// The JSON that is kept of an answer reads as that answer again.
pub proof fn law_kept_json_reads_back(response: ResponseView)
    ensures
        response_of(response_json(response)) == Some(response),
{
    reveal_strlit("id");
    reveal_strlit("content");
    reveal_strlit("usage");
    reveal_strlit("type");
    reveal_strlit("text");
    reveal_strlit("input_tokens");
    reveal_strlit("output_tokens");
    reveal_strlit("cache_read_input_tokens");
    reveal_strlit("cache_creation_input_tokens");
    assert("id"@.len() == 2);
    assert("content"@.len() == 7);
    assert("usage"@.len() == 5);
    assert("type"@[1] == 'y');
    assert("text"@[1] == 'e');
    assert("input_tokens"@.len() == 12);
    assert("output_tokens"@.len() == 13);
    assert("cache_read_input_tokens"@.len() == 23);
    assert("cache_creation_input_tokens"@.len() == 27);
    let v = response_json(response);
    let items = Seq::new(response.content.len(), |i: int| block_json(response.content[i]));
    assert(field_of(v, "content"@, 1) == Some(JsonView::Array(items)));
    assert forall|i: int| 0 <= i < items.len() implies block_of(#[trigger] items[i]) == Some(
        response.content[i],
    ) by {
        assert(items[i] == block_json(response.content[i]));
    }
    assert(blocks_of(items)->0 =~= response.content);
    assert(usage_counts_of(field_of(v, "usage"@, 2)) == Some(response.usage));
}

/// An answer's usage is the same whether the answer is streamed or comes as a whole.
pub proof fn law_usage_does_not_depend_on_the_mode(
    response: ResponseView,
    state: StateView,
    tool_input: JsonView,
)
    requires
        state.input_tokens == response.usage.input_tokens,
        state.output_tokens == response.usage.output_tokens,
        state.cache_read_input_tokens == response.usage.cache_read_input_tokens,
        state.cache_write_input_tokens == response.usage.cache_creation_input_tokens,
    ensures
        match (completed(response), outcome_of(state, tool_input)) {
            (Ok(result), TranslatedView::Completed { usage, .. }) => usage == result.usage,
            (Ok(result), TranslatedView::Incomplete { usage, .. }) => usage == result.usage,
            _ => true,
        },
{
}

/// No answer with a tool call succeeds, and any other answer does.
pub proof fn law_tool_calls_are_refused(response: ResponseView)
    ensures
        completed(response) is Err <==> calls_tool(response.content),
{
}

/// The text of an answer is made of all its text blocks: lists of blocks one behind the other
/// give the text of the first and then that of the second, and a single block gives its text
/// where it is a text block and nothing otherwise.
pub proof fn law_all_text_blocks_are_joined(a: Seq<BlockView>, b: Seq<BlockView>)
    ensures
        text_of_blocks(a + b) == text_of_blocks(a) + text_of_blocks(b),
        b.len() == 1 && b[0].block_type == "text"@ ==> text_of_blocks(b) == b[0].text,
        b.len() == 1 && b[0].block_type != "text"@ ==> text_of_blocks(b).len() == 0,
        b.len() == 0 ==> text_of_blocks(b).len() == 0,
    decreases b.len(),
{
    if b.len() == 0 {
        assert(a + b =~= a);
        assert(text_of_blocks(a) + text_of_blocks(b) =~= text_of_blocks(a));
    } else {
        law_all_text_blocks_are_joined(a, b.drop_last());
        assert((a + b).drop_last() =~= a + b.drop_last());
        assert(text_of_blocks(a + b) =~= text_of_blocks(a) + text_of_blocks(b));
        if b.len() == 1 {
            assert(b.drop_last() =~= Seq::empty());
            assert(text_of_blocks(b) =~= if b[0].block_type == "text"@ {
                b[0].text
            } else {
                Seq::empty()
            });
        }
    }
}

/// An answer in which a block calls a tool is refused, and any other one comes to the text of its
/// blocks, its own id and its usage, with the cached tokens counted into the input where their
/// sum can be counted.
pub proof fn law_answers_come_to_their_text(response: ResponseView)
    ensures
        (exists|i: int|
            0 <= i < response.content.len() && (#[trigger] response.content[i]).block_type
                == "tool_use"@) ==> completed(response) == Err::<ResultView, ErrorView>(
            ErrorView::InvalidResponse {
                detail: "Anthropic returned a tool_use block on a non-streaming complete() call; tools are not supported in this mode"@,
            },
        ),
        (forall|i: int|
            0 <= i < response.content.len() ==> (#[trigger] response.content[i]).block_type
                != "tool_use"@) ==> (completed(response) matches Ok(result) && {
            &&& result.content == text_of_blocks(response.content)
            &&& result.response_id == response.id
            &&& result.citations.len() == 0
            &&& total_fits(
                response.usage.input_tokens,
                response.usage.cache_read_input_tokens,
                response.usage.cache_creation_input_tokens,
            ) ==> result.usage.input_tokens == response.usage.input_tokens
                + response.usage.cache_read_input_tokens
                + response.usage.cache_creation_input_tokens
            &&& result.usage.output_tokens == response.usage.output_tokens
            &&& result.usage.cache_read_input_tokens == response.usage.cache_read_input_tokens
            &&& result.usage.cache_write_input_tokens
                == response.usage.cache_creation_input_tokens
            &&& result.usage.reasoning_tokens == 0
            &&& response_of(result.raw_response) == Some(response)
        }),
{
    law_kept_json_reads_back(response);
}

/// A body that holds an id, blocks and counts is read as the answer that has just these; blocks
/// and counts may be left out, as may the text of a block.
pub proof fn law_answers_are_read_as_they_are(
    members: Map<Seq<char>, JsonView>,
    items: Seq<JsonView>,
    counts: Map<Seq<char>, JsonView>,
    id: Seq<char>,
    response: ResponseView,
)
    requires
        members.contains_key("id"@),
        members["id"@] == JsonView::Text(id),
        if members.contains_key("content"@) {
            members["content"@] == JsonView::Array(items)
        } else {
            items.len() == 0
        },
        if members.contains_key("usage"@) {
            members["usage"@] == JsonView::Object(counts)
        } else {
            counts == Map::<Seq<char>, JsonView>::empty()
        },
        response.id == id,
        response.content.len() == items.len(),
        forall|i: int|
            0 <= i < items.len() ==> {
                &&& (#[trigger] items[i]) is Object
                &&& items[i].member("type"@) == Some(
                    JsonView::Text(response.content[i].block_type),
                )
                &&& match items[i].member("text"@) {
                    Some(text) => text == JsonView::Text(response.content[i].text),
                    None => response.content[i].text.len() == 0,
                }
            },
        counts_under(counts, "input_tokens"@, response.usage.input_tokens),
        counts_under(counts, "output_tokens"@, response.usage.output_tokens),
        counts_under(counts, "cache_read_input_tokens"@, response.usage.cache_read_input_tokens),
        counts_under(
            counts,
            "cache_creation_input_tokens"@,
            response.usage.cache_creation_input_tokens,
        ),
    ensures
        response_of(JsonView::Object(members)) == Some(response),
{
    assert forall|i: int| 0 <= i < items.len() implies block_of(#[trigger] items[i]) == Some(
        response.content[i],
    ) by {
        if items[i].member("text"@) is None {
            assert(response.content[i].text =~= Seq::empty());
        }
    }
    assert(blocks_of(items)->0 =~= response.content);
    if !members.contains_key("content"@) {
        assert(response.content =~= Seq::empty());
    }
}

/// A body without an id, with a block that has no type, or with anything else than blocks in its
/// content, is no answer.
pub proof fn law_what_is_no_answer(members: Map<Seq<char>, JsonView>, i: int)
    requires
        ({
            ||| !members.contains_key("id"@)
            ||| members.contains_key("content"@) && !(members["content"@] is Array)
            ||| members.contains_key("content"@) && (members["content"@] matches JsonView::Array(
                items,
            ) && 0 <= i < items.len() && items[i] is Object && items[i].member("type"@) is None)
            ||| members.contains_key("usage"@) && !(members["usage"@] is Object)
                && !(members["usage"@] is Array)
        }),
    ensures
        response_of(JsonView::Object(members)) is None,
{
}

/// Only a success can bring an answer, and then its body decides.
pub proof fn law_only_success_answers(status: u16, v: JsonView, reason: Seq<char>)
    ensures
        status / 100 == 2 ==> answer_of(status, Ok(v)) == response_of(v),
        status / 100 != 2 ==> answer_of(status, Ok(v)) is None,
        answer_of(status, Err(reason)) is None,
{
}

/// The log tells a refusal by the server from a success that could not be read, and for the
/// latter why.
pub proof fn law_refusals_are_told_apart(status: u16, v: JsonView, reason: Seq<char>)
    ensures
        status / 100 != 2 ==> refusal_op(status) == "complete"@ && refusal_reason(
            status,
            Err(reason),
        ) is None && refusal_reason(status, Ok(v)) is None,
        status / 100 == 2 ==> refusal_op(status) == "complete (body parse failed)"@
            && refusal_reason(status, Err(reason)) == Some(reason) && refusal_reason(status, Ok(v))
            == Some("unexpected shape"@),
{
}

/// The JSON that is kept of an answer holds its id, its blocks and its counts, each under its own
/// name, and nothing else.
pub proof fn law_kept_json_holds_the_answer(response: ResponseView, i: int)
    ensures
        ({
            let kept = response_json(response);
            &&& kept.member("id"@) == Some(JsonView::Text(response.id))
            &&& kept.member("content"@) matches Some(JsonView::Array(items)) && {
                &&& items.len() == response.content.len()
                &&& 0 <= i < items.len() ==> items[i].member("type"@) == Some(
                    JsonView::Text(response.content[i].block_type),
                ) && items[i].member("text"@) == Some(JsonView::Text(response.content[i].text))
            }
            &&& kept.member("usage"@) matches Some(counts) && {
                &&& counts.member("input_tokens"@) == Some(
                    JsonView::Number(NumberView::Int(response.usage.input_tokens as int)),
                )
                &&& counts.member("output_tokens"@) == Some(
                    JsonView::Number(NumberView::Int(response.usage.output_tokens as int)),
                )
                &&& counts.member("cache_read_input_tokens"@) == Some(
                    JsonView::Number(
                        NumberView::Int(response.usage.cache_read_input_tokens as int),
                    ),
                )
                &&& counts.member("cache_creation_input_tokens"@) == Some(
                    JsonView::Number(
                        NumberView::Int(response.usage.cache_creation_input_tokens as int),
                    ),
                )
            }
            &&& kept->Object_0.dom() == set!["id"@, "content"@, "usage"@]
        }),
{
    reveal_strlit("id");
    reveal_strlit("content");
    reveal_strlit("usage");
    reveal_strlit("type");
    reveal_strlit("text");
    reveal_strlit("input_tokens");
    reveal_strlit("output_tokens");
    reveal_strlit("cache_read_input_tokens");
    reveal_strlit("cache_creation_input_tokens");
    assert("id"@.len() == 2 && "content"@.len() == 7 && "usage"@.len() == 5);
    assert("type"@[1] == 'y' && "text"@[1] == 'e');
    assert("input_tokens"@.len() == 12 && "output_tokens"@.len() == 13
        && "cache_read_input_tokens"@.len() == 23 && "cache_creation_input_tokens"@.len() == 27);
    assert(response_json(response)->Object_0.dom() =~= set!["id"@, "content"@, "usage"@]);
}

/// What a response comes to: an answer, where it is one whose tokens can be counted, and a
/// refusal with its error where it is none.
pub proof fn law_completions_go_by_the_answer<S: Fn(&str) -> String>(
    sanitize: S,
    status: u16,
    retry_after_secs: Option<u64>,
    diagnostics: Seq<char>,
    reading: Result<JsonView, Seq<char>>,
    body: Seq<char>,
    completion: Completion,
)
    requires
        is_completion_of(
            sanitize,
            status,
            retry_after_secs,
            diagnostics,
            reading,
            body,
            completion,
        ),
    ensures
        answer_of(status, reading) matches Some(response) ==> {
            let counts = response.usage;
            let sums = total_fits(
                counts.input_tokens,
                counts.cache_read_input_tokens,
                counts.cache_creation_input_tokens,
            );
            &&& sums || (exists|i: int|
                0 <= i < response.content.len() && (#[trigger] response.content[i]).block_type
                    == "tool_use"@) ==> (completion matches Completion::Answered(r) && result_view(r)
                == completed(response))
            &&& !sums && (forall|i: int|
                0 <= i < response.content.len() ==> (#[trigger] response.content[i]).block_type
                    != "tool_use"@) ==> completion is Uncountable
        },
        answer_of(status, reading) is None ==> (completion matches Completion::Refused {
            op,
            parse_error,
            error,
        } && op@ == refusal_op(status) && text_view(parse_error) == refusal_reason(
            status,
            reading,
        ) && is_error_of(
            sanitize,
            status,
            retry_after_secs,
            diagnostics,
            reading,
            body,
            error@,
        )),
{
}

/// An answer and its blocks say what their fields hold, and a result what it is.
pub proof fn law_responses_say_what_they_hold(
    response: AnthropicMessageResponse,
    r: Result<ResponseResult, LlmProviderError>,
    i: int,
)
    ensures
        response@.id == response.id@,
        response@.usage == response.usage,
        response@.content.len() == response.content@.len(),
        0 <= i < response.content@.len() ==> response@.content[i].block_type
            == response.content@[i].block_type@ && response@.content[i].text
            == response.content@[i].text@,
        r matches Ok(result) ==> result_view(r) == Ok::<ResultView, ErrorView>(result@),
        r matches Err(error) ==> result_view(r) == Err::<ResultView, ErrorView>(error@),
{
}

/// An answer, a block and the counts may each be an array of their fields in order instead of an
/// object; longer arrays, and what is neither, are none.
pub proof fn law_answers_may_be_arrays(a: JsonView, b: JsonView, c: JsonView, d: JsonView)
    ensures
        response_of(JsonView::Array(seq![a, b, c])) == response_of(
            JsonView::Object(map!["id"@ => a, "content"@ => b, "usage"@ => c]),
        ),
        response_of(JsonView::Array(seq![a])) == response_of(JsonView::Object(map!["id"@ => a])),
        block_of(JsonView::Array(seq![a, b])) == block_of(
            JsonView::Object(map!["type"@ => a, "text"@ => b]),
        ),
        usage_counts_of(Some(JsonView::Array(seq![a, b, c, d]))) == usage_counts_of(
            Some(
                JsonView::Object(
                    map![
                        "input_tokens"@ => a,
                        "output_tokens"@ => b,
                        "cache_read_input_tokens"@ => c,
                        "cache_creation_input_tokens"@ => d,
                    ],
                ),
            ),
        ),
        a matches JsonView::Array(items) ==> {
            &&& items.len() > 3 ==> response_of(a) is None
            &&& items.len() > 2 ==> block_of(a) is None
            &&& items.len() > 4 ==> usage_counts_of(Some(a)) is None
        },
        !(a is Object) && !(a is Array) ==> response_of(a) is None && block_of(a) is None
            && usage_counts_of(Some(a)) is None,
{
    reveal_strlit("id");
    reveal_strlit("content");
    reveal_strlit("usage");
    reveal_strlit("type");
    reveal_strlit("text");
    reveal_strlit("input_tokens");
    reveal_strlit("output_tokens");
    reveal_strlit("cache_read_input_tokens");
    reveal_strlit("cache_creation_input_tokens");
    assert("id"@.len() == 2 && "content"@.len() == 7 && "usage"@.len() == 5);
    assert("type"@[1] == 'y' && "text"@[1] == 'e');
    assert("input_tokens"@.len() == 12 && "output_tokens"@.len() == 13
        && "cache_read_input_tokens"@.len() == 23 && "cache_creation_input_tokens"@.len() == 27);
}

/// A body is an answer where it has an id, its content is blocks and its counts can be read; a
/// block has a type, and a text at most.
pub proof fn law_when_answers_are_read(
    members: Map<Seq<char>, JsonView>,
    items: Seq<JsonView>,
    counts: Map<Seq<char>, JsonView>,
)
    requires
        members.contains_key("content"@) ==> members["content"@] == JsonView::Array(items),
        members.contains_key("usage"@) ==> members["usage"@] == JsonView::Object(counts),
    ensures
        block_of(JsonView::Object(members)) is Some <==> has_text(members, "type"@)
            && at_most_text(members, "text"@),
        usage_counts_of(Some(JsonView::Object(counts))) is Some <==> at_most_count(
            counts,
            "input_tokens"@,
        ) && at_most_count(counts, "output_tokens"@) && at_most_count(
            counts,
            "cache_read_input_tokens"@,
        ) && at_most_count(counts, "cache_creation_input_tokens"@),
        response_of(JsonView::Object(members)) is Some <==> {
            &&& has_text(members, "id"@)
            &&& members.contains_key("content"@) ==> forall|i: int|
                0 <= i < items.len() ==> block_of(#[trigger] items[i]) is Some
            &&& members.contains_key("usage"@) ==> usage_counts_of(
                Some(JsonView::Object(counts)),
            ) is Some
        },
{
}

}
