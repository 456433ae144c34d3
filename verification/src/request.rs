//! Provider-agnostic requests.
//!
//! [`LlmRequest`] is the common input of all provider adapters. Each adapter converts it to
//! the wire format of its provider.

use std::marker::PhantomData;

use vstd::prelude::*;

use crate::json::Json;
use crate::llm::{LlmMessage, LlmTool, ModelApiParams, NonStreaming, Streaming};
use crate::text::{join, join_texts, law_joining_lists, str_eq, views};

verus! {

/// The identity of a user, for a provider's abuse detection and for observability.
#[derive(Debug)]
pub struct UserIdentity {
    pub tenant_id: String,
    pub user_id: String,
}

impl Clone for UserIdentity {
    fn clone(&self) -> (r: UserIdentity)
        ensures
            r == *self,
    {
        UserIdentity { tenant_id: self.tenant_id.clone(), user_id: self.user_id.clone() }
    }
}

/// Observability metadata attached to requests.
#[derive(Debug)]
pub struct RequestMetadata {
    pub tenant_id: String,
    pub user_id: String,
    pub chat_id: String,
    pub request_type: RequestType,
    pub features: Vec<FeatureFlag>,
}

impl Clone for RequestMetadata {
    fn clone(&self) -> (r: RequestMetadata)
        ensures
            r.tenant_id == self.tenant_id,
            r.user_id == self.user_id,
            r.chat_id == self.chat_id,
            r.request_type == self.request_type,
            r.features@ == self.features@,
    {
        let features = self.features.clone();
        proof {
            assert(features@ =~= self.features@);
        }
        RequestMetadata {
            tenant_id: self.tenant_id.clone(),
            user_id: self.user_id.clone(),
            chat_id: self.chat_id.clone(),
            request_type: self.request_type,
            features,
        }
    }
}

/// What a request is for.
#[derive(Debug, Clone, Copy, PartialEq, Eq, Structural)]
pub enum RequestType {
    Chat,
    Summary,
    DocSummary,
}

/// A feature that a request uses.
#[derive(Debug, Clone, Copy, PartialEq, Eq, Structural)]
pub enum FeatureFlag {
    FileSearch,
    WebSearch,
    CodeInterpreter,
}

/// The name of a feature in the metadata.
pub open spec fn feature_name(feature: FeatureFlag) -> Seq<char> {
    match feature {
        FeatureFlag::FileSearch => "file_search"@,
        FeatureFlag::WebSearch => "web_search"@,
        FeatureFlag::CodeInterpreter => "code_interpreter"@,
    }
}

/// The names of features, in order.
pub open spec fn feature_names(features: Seq<FeatureFlag>) -> Seq<Seq<char>> {
    Seq::new(features.len(), |i: int| feature_name(features[i]))
}

/// What the metadata says of the features: their names with plus signs between them, or that
/// there is none.
pub open spec fn feature_label(features: Seq<FeatureFlag>) -> Seq<char> {
    if features.len() == 0 {
        "none"@
    } else {
        join_texts(feature_names(features), "+"@)
    }
}

impl FeatureFlag {
    /// The name of the feature in the metadata.
    pub fn as_str(self) -> (r: &'static str)
        ensures
            r@ == feature_name(self),
    {
        match self {
            FeatureFlag::FileSearch => "file_search",
            FeatureFlag::WebSearch => "web_search",
            FeatureFlag::CodeInterpreter => "code_interpreter",
        }
    }
}

/// The text by which the metadata carries a list of features.
pub fn serialize_feature(features: &[FeatureFlag]) -> (r: String)
    ensures
        r@ == feature_label(features@),
{
    if features.len() == 0 {
        return "none".to_owned();
    }
    let mut names: Vec<String> = Vec::new();
    let mut i: usize = 0;
    while i < features.len()
        invariant
            i <= features@.len(),
            views(names@) == feature_names(features@).take(i as int),
        decreases features@.len() - i,
    {
        let ghost before = names@;
        names.push(features[i].as_str().to_owned());
        proof {
            assert(views(names@) =~= views(before).push(feature_name(features@[i as int])));
            assert(views(names@) =~= feature_names(features@).take(i + 1));
        }
        i = i + 1;
    }
    proof {
        assert(feature_names(features@).take(i as int) =~= feature_names(features@));
    }
    join(&names, "+")
}

/// A lookup from the primary provider's file id to the id of the same file with Anthropic.
#[derive(Debug)]
pub struct FileIdMap {
    entries: Vec<(String, String)>,
}

spec fn entries_map(entries: Seq<(String, String)>) -> Map<Seq<char>, Seq<char>>
    decreases entries.len(),
{
    if entries.len() == 0 {
        Map::empty()
    } else {
        entries_map(entries.drop_last()).insert(entries.last().0@, entries.last().1@)
    }
}

impl View for FileIdMap {
    type V = Map<Seq<char>, Seq<char>>;

    closed spec fn view(&self) -> Map<Seq<char>, Seq<char>> {
        entries_map(self.entries@)
    }
}

impl FileIdMap {
    /// A lookup that holds no id.
    pub fn new() -> (r: FileIdMap)
        ensures
            r@ == Map::<Seq<char>, Seq<char>>::empty(),
    {
        FileIdMap { entries: Vec::new() }
    }

    /// Sets the id that belongs to a primary id.
    pub fn insert(&mut self, primary: &str, anthropic: &str)
        ensures
            final(self)@ == old(self)@.insert(primary@, anthropic@),
    {
        let ghost before = self.entries@;
        self.entries.push((primary.to_owned(), anthropic.to_owned()));
        proof {
            assert(self.entries@.drop_last() =~= before);
        }
    }

    /// The id that belongs to a primary id.
    pub fn get(&self, primary: &str) -> (r: Option<&str>)
        ensures
            match r {
                Some(id) => self@.contains_key(primary@) && self@[primary@] == id@,
                None => !self@.contains_key(primary@),
            },
    {
        let mut i: usize = self.entries.len();
        proof {
            assert(self.entries@.take(i as int) =~= self.entries@);
        }
        while i > 0
            invariant
                i <= self.entries@.len(),
                self@.contains_key(primary@) == entries_map(
                    self.entries@.take(i as int),
                ).contains_key(primary@),
                self@.contains_key(primary@) ==> self@[primary@] == entries_map(
                    self.entries@.take(i as int),
                )[primary@],
            decreases i,
        {
            proof {
                assert(self.entries@.take(i as int).drop_last() =~= self.entries@.take(i - 1));
                assert(self.entries@.take(i as int).last() == self.entries@[i - 1]);
            }
            i = i - 1;
            if str_eq(self.entries[i].0.as_str(), primary) {
                return Some(self.entries[i].1.as_str());
            }
        }
        proof {
            assert(self.entries@.take(0).len() == 0);
        }
        None
    }
}

/// A provider-agnostic request, parameterized by how its response comes.
#[derive(Debug)]
pub struct LlmRequest<Mode = Streaming> {
    pub model: String,
    pub messages: Vec<LlmMessage>,
    pub system_instructions: Option<String>,
    pub max_output_tokens: Option<u64>,
    pub tools: Vec<LlmTool>,
    pub user_identity: Option<UserIdentity>,
    pub metadata: Option<RequestMetadata>,
    pub max_tool_calls: Option<u32>,
    /// Inference parameters of the model policy. Each adapter consumes only those that its
    /// protocol supports.
    pub api_params: Option<ModelApiParams>,
    /// The ids under which attachments were also uploaded to Anthropic.
    pub anthropic_file_ids: FileIdMap,
    /// Extras for one adapter, outside what the other fields can say.
    pub additional_params: Option<Json>,
    /// Recorded tool calls and results, which follow the messages.
    pub raw_input_items: Vec<Json>,
    pub mode: PhantomData<Mode>,
}

impl<M> LlmRequest<M> {
    /// The model identifier set on this request.
    pub fn model(&self) -> (r: &str)
        ensures
            r@ == self.model@,
    {
        self.model.as_str()
    }

    /// The messages in this request.
    pub fn messages(&self) -> (r: &[LlmMessage])
        ensures
            r@ == self.messages@,
    {
        self.messages.as_slice()
    }

    /// The tools in this request.
    pub fn tools(&self) -> (r: &[LlmTool])
        ensures
            r@ == self.tools@,
    {
        self.tools.as_slice()
    }
}

/// Fluent builder for [`LlmRequest`].
#[derive(Debug)]
pub struct LlmRequestBuilder {
    pub model: String,
    pub messages: Vec<LlmMessage>,
    pub system_instructions: Option<String>,
    pub max_output_tokens: Option<u64>,
    pub tools: Vec<LlmTool>,
    pub user_identity: Option<UserIdentity>,
    pub metadata: Option<RequestMetadata>,
    pub max_tool_calls: Option<u32>,
    pub api_params: Option<ModelApiParams>,
    pub anthropic_file_ids: FileIdMap,
    pub additional_params: Option<Json>,
    pub raw_input_items: Vec<Json>,
}

/// The request holds what the builder held.
pub open spec fn is_built_from<M>(request: LlmRequest<M>, builder: LlmRequestBuilder) -> bool {
    &&& request.model == builder.model
    &&& request.messages == builder.messages
    &&& request.system_instructions == builder.system_instructions
    &&& request.max_output_tokens == builder.max_output_tokens
    &&& request.tools == builder.tools
    &&& request.user_identity == builder.user_identity
    &&& request.metadata == builder.metadata
    &&& request.max_tool_calls == builder.max_tool_calls
    &&& request.api_params == builder.api_params
    &&& request.anthropic_file_ids == builder.anthropic_file_ids
    &&& request.additional_params == builder.additional_params
    &&& request.raw_input_items == builder.raw_input_items
}

/// Starts a request to a model.
pub fn llm_request(model: &str) -> (r: LlmRequestBuilder)
    ensures
        r.is_new(model@),
{
    LlmRequestBuilder::new(model)
}

impl LlmRequestBuilder {
    /// The builder names a model and nothing else.
    pub open spec fn is_new(self, model: Seq<char>) -> bool {
        &&& self.model@ == model
        &&& self.messages@.len() == 0
        &&& self.system_instructions is None
        &&& self.max_output_tokens is None
        &&& self.tools@.len() == 0
        &&& self.user_identity is None
        &&& self.metadata is None
        &&& self.max_tool_calls is None
        &&& self.api_params is None
        &&& self.anthropic_file_ids@ == Map::<Seq<char>, Seq<char>>::empty()
        &&& self.additional_params is None
        &&& self.raw_input_items@.len() == 0
    }

    /// Creates a builder with the required model identifier.
    pub fn new(model: &str) -> (r: LlmRequestBuilder)
        ensures
            r.is_new(model@),
    {
        LlmRequestBuilder {
            model: model.to_owned(),
            messages: Vec::new(),
            system_instructions: None,
            max_output_tokens: None,
            tools: Vec::new(),
            user_identity: None,
            metadata: None,
            max_tool_calls: None,
            api_params: None,
            anthropic_file_ids: FileIdMap::new(),
            additional_params: None,
            raw_input_items: Vec::new(),
        }
    }

    /// Adds a single message to the conversation.
    pub fn message(self, message: LlmMessage) -> (r: LlmRequestBuilder)
        ensures
            r.messages@ == self.messages@.push(message),
            r == (LlmRequestBuilder { messages: r.messages, ..self }),
    {
        let mut out = self;
        out.messages.push(message);
        out
    }

    /// Sets all messages at once.
    pub fn messages(self, messages: Vec<LlmMessage>) -> (r: LlmRequestBuilder)
        ensures
            r == (LlmRequestBuilder { messages, ..self }),
    {
        let mut out = self;
        out.messages = messages;
        out
    }

    /// Sets the system instructions.
    pub fn system_instructions(self, instructions: &str) -> (r: LlmRequestBuilder)
        ensures
            r.system_instructions matches Some(held) && held@ == instructions@,
            r == (LlmRequestBuilder { system_instructions: r.system_instructions, ..self }),
    {
        let mut out = self;
        out.system_instructions = Some(instructions.to_owned());
        out
    }

    /// Sets the hard token cap.
    pub fn max_output_tokens(self, max_tokens: u64) -> (r: LlmRequestBuilder)
        ensures
            r == (LlmRequestBuilder { max_output_tokens: Some(max_tokens), ..self }),
    {
        let mut out = self;
        out.max_output_tokens = Some(max_tokens);
        out
    }

    /// Adds a single tool.
    pub fn tool(self, tool: LlmTool) -> (r: LlmRequestBuilder)
        ensures
            r.tools@ == self.tools@.push(tool),
            r == (LlmRequestBuilder { tools: r.tools, ..self }),
    {
        let mut out = self;
        out.tools.push(tool);
        out
    }

    /// Sets all tools at once.
    pub fn tools(self, tools: Vec<LlmTool>) -> (r: LlmRequestBuilder)
        ensures
            r == (LlmRequestBuilder { tools, ..self }),
    {
        let mut out = self;
        out.tools = tools;
        out
    }

    /// Sets the user identity for a provider's abuse detection.
    pub fn user_identity(self, tenant_id: &str, user_id: &str) -> (r: LlmRequestBuilder)
        ensures
            r.user_identity matches Some(identity) && identity.tenant_id@ == tenant_id@
                && identity.user_id@ == user_id@,
            r == (LlmRequestBuilder { user_identity: r.user_identity, ..self }),
    {
        let mut out = self;
        out.user_identity = Some(
            UserIdentity { tenant_id: tenant_id.to_owned(), user_id: user_id.to_owned() },
        );
        out
    }

    /// Sets the observability metadata.
    pub fn metadata(self, metadata: RequestMetadata) -> (r: LlmRequestBuilder)
        ensures
            r == (LlmRequestBuilder { metadata: Some(metadata), ..self }),
    {
        let mut out = self;
        out.metadata = Some(metadata);
        out
    }

    /// Sets the maximum of tool calls per request.
    pub fn max_tool_calls(self, max: u32) -> (r: LlmRequestBuilder)
        ensures
            r == (LlmRequestBuilder { max_tool_calls: Some(max), ..self }),
    {
        let mut out = self;
        out.max_tool_calls = Some(max);
        out
    }

    /// Sets the inference parameters of the model policy.
    pub fn api_params(self, params: ModelApiParams) -> (r: LlmRequestBuilder)
        ensures
            r == (LlmRequestBuilder { api_params: Some(params), ..self }),
    {
        let mut out = self;
        out.api_params = Some(params);
        out
    }

    /// Sets the ids under which attachments were also uploaded to Anthropic.
    pub fn anthropic_file_ids(self, ids: FileIdMap) -> (r: LlmRequestBuilder)
        ensures
            r == (LlmRequestBuilder { anthropic_file_ids: ids, ..self }),
    {
        let mut out = self;
        out.anthropic_file_ids = ids;
        out
    }

    /// Sets extras for one adapter.
    pub fn additional_params(self, params: Json) -> (r: LlmRequestBuilder)
        ensures
            r == (LlmRequestBuilder { additional_params: Some(params), ..self }),
    {
        let mut out = self;
        out.additional_params = Some(params);
        out
    }

    /// Appends recorded items, for the replay of a tool call with its result.
    ///
    /// Successive calls accumulate: the items of each call follow those of the calls before.
    /// [`Self::clear_raw_input_items`] starts afresh.
    pub fn raw_input_items(self, items: Vec<Json>) -> (r: LlmRequestBuilder)
        ensures
            r.raw_input_items@ == self.raw_input_items@ + items@,
            r == (LlmRequestBuilder { raw_input_items: r.raw_input_items, ..self }),
    {
        let mut out = self;
        let mut added = items;
        out.raw_input_items.append(&mut added);
        out
    }

    /// Drops the recorded items.
    pub fn clear_raw_input_items(self) -> (r: LlmRequestBuilder)
        ensures
            r.raw_input_items@.len() == 0,
            r == (LlmRequestBuilder { raw_input_items: r.raw_input_items, ..self }),
    {
        let mut out = self;
        out.raw_input_items = Vec::new();
        out
    }

    fn build_inner<Mode>(self) -> (r: LlmRequest<Mode>)
        ensures
            is_built_from(r, self),
    {
        LlmRequest {
            model: self.model,
            messages: self.messages,
            system_instructions: self.system_instructions,
            max_output_tokens: self.max_output_tokens,
            tools: self.tools,
            user_identity: self.user_identity,
            metadata: self.metadata,
            max_tool_calls: self.max_tool_calls,
            api_params: self.api_params,
            anthropic_file_ids: self.anthropic_file_ids,
            additional_params: self.additional_params,
            raw_input_items: self.raw_input_items,
            mode: PhantomData,
        }
    }

    /// Builds a request whose response is streamed.
    pub fn build_streaming(self) -> (r: LlmRequest<Streaming>)
        ensures
            is_built_from(r, self),
    {
        self.build_inner()
    }

    /// Builds a request whose response comes as a whole.
    pub fn build_non_streaming(self) -> (r: LlmRequest<NonStreaming>)
        ensures
            is_built_from(r, self),
    {
        self.build_inner()
    }
}

/// A request holds everything that its builder was given.
pub proof fn law_requests_hold_what_was_built<M>(request: LlmRequest<M>, builder: LlmRequestBuilder)
    requires
        is_built_from(request, builder),
    ensures
        request.model@ == builder.model@,
        request.messages@ == builder.messages@,
        request.system_instructions == builder.system_instructions,
        request.max_output_tokens == builder.max_output_tokens,
        request.tools@ == builder.tools@,
        request.user_identity == builder.user_identity,
        request.metadata == builder.metadata,
        request.max_tool_calls == builder.max_tool_calls,
        request.api_params == builder.api_params,
        request.anthropic_file_ids@ == builder.anthropic_file_ids@,
        request.additional_params == builder.additional_params,
        request.raw_input_items@ == builder.raw_input_items@,
{
}

/// A new builder names its model, and nothing else is set.
pub proof fn law_new_builders_name_a_model(builder: LlmRequestBuilder, model: Seq<char>)
    requires
        builder.is_new(model),
    ensures
        builder.model@ == model,
        builder.messages@.len() == 0 && builder.tools@.len() == 0
            && builder.raw_input_items@.len() == 0,
        builder.system_instructions is None && builder.max_output_tokens is None
            && builder.user_identity is None && builder.metadata is None
            && builder.max_tool_calls is None && builder.api_params is None
            && builder.additional_params is None,
        forall|primary: Seq<char>| !(#[trigger] builder.anthropic_file_ids@.contains_key(primary)),
{
}

/// The label of features is their names in their order with plus signs between them, and `none`
/// where there are none; two lists one behind the other are labelled by both.
pub proof fn law_features_are_labelled(a: Seq<FeatureFlag>, b: Seq<FeatureFlag>)
    ensures
        a.len() == 0 ==> feature_label(a) == "none"@,
        a.len() == 1 && a[0] == FeatureFlag::FileSearch ==> feature_label(a) == "file_search"@,
        a.len() == 1 && a[0] == FeatureFlag::WebSearch ==> feature_label(a) == "web_search"@,
        a.len() == 1 && a[0] == FeatureFlag::CodeInterpreter ==> feature_label(a)
            == "code_interpreter"@,
        a.len() > 0 && b.len() > 0 ==> feature_label(a + b) == feature_label(a) + seq!['+']
            + feature_label(b),
{
    reveal_strlit("+");
    assert("+"@ =~= seq!['+']);
    if a.len() > 0 && b.len() > 0 {
        law_joining_lists(feature_names(a), feature_names(b), "+"@);
        assert(feature_names(a + b) =~= feature_names(a) + feature_names(b));
    }
}

}
