//! The Messages API adapter: what one call sends, and what the pieces of the call are.

use std::sync::Arc;

use vstd::prelude::*;
use vstd::utf8::encode_utf8;

use crate::anthropic::body::{
    build_request_body, law_messages_member, plain_messages, request_body,
};
use crate::anthropic::convert::converted_items;
use crate::anthropic::transport::{
    is_request_to, messages_headers, messages_path, messages_request, messages_uri,
};
use crate::json::{items_view, rendered, Json, JsonView};
use crate::llm::LlmProviderError;
use crate::outbound::RequestMethod;
use crate::request::LlmRequest;

verus! {

/// The adapter for the Messages API. All calls go through the gateway.
///
/// The upstream's alias is not kept: it comes with each request, so that tenants can use
/// different upstreams.
#[derive(Debug)]
pub struct AnthropicMessagesProvider<G> {
    pub gateway: Arc<G>,
}

impl<G> AnthropicMessagesProvider<G> {
    /// An adapter that sends its calls through `gateway`.
    pub fn new(gateway: Arc<G>) -> (r: Self)
        ensures
            r.gateway == gateway,
    {
        AnthropicMessagesProvider { gateway }
    }
}

impl<G> Clone for AnthropicMessagesProvider<G> {
    fn clone(&self) -> (r: Self)
        ensures
            r.gateway == self.gateway,
    {
        AnthropicMessagesProvider { gateway: self.gateway.clone() }
    }
}

/// A call that is ready to be sent. The URI and the body are kept for the log.
#[derive(Debug)]
pub struct PreparedCall {
    pub uri: String,
    pub body: Json,
    pub request: http::Request<Vec<u8>>,
}

/// The body of the call for a request.
pub open spec fn call_body<M>(request: LlmRequest<M>, stream: bool) -> JsonView {
    request_body(request, stream, converted_items(items_view(request.raw_input_items@)))
}

/// The request inside a prepared call, or why there is none.
pub open spec fn prepared_request(r: Result<PreparedCall, LlmProviderError>) -> Result<
    http::Request<Vec<u8>>,
    LlmProviderError,
> {
    match r {
        Ok(call) => Ok(call.request),
        Err(error) => Err(error),
    }
}

/// Prepares the call for a request.
pub fn prepare_call<M>(request: &LlmRequest<M>, stream: bool, upstream_alias: &str) -> (r: Result<
    PreparedCall,
    LlmProviderError,
>)
    ensures
        is_request_to(
            RequestMethod::Post,
            messages_path(upstream_alias@),
            messages_headers(stream),
            encode_utf8(rendered(call_body(*request, stream))),
            "failed to build HTTP request"@,
            prepared_request(r),
        ),
        r matches Ok(call) ==> call.uri@ == messages_path(upstream_alias@) && call.body@ == call_body(
            *request,
            stream,
        ),
{
    let body = build_request_body(request, stream);
    match messages_request(upstream_alias, stream, &body) {
        Ok(http_request) => Ok(
            PreparedCall { uri: messages_uri(upstream_alias), body, request: http_request },
        ),
        Err(error) => Err(error),
    }
}

/// Without extras the body of a call tells the messages of the request and behind them the recorded
/// calls and their results, and no messages where there are none. The rest of the body does not
/// depend on what was recorded.
pub proof fn law_calls_carry_the_recorded_items<M>(
    request: LlmRequest<M>,
    stream: bool,
    key: Seq<char>,
)
    requires
        request.additional_params is None,
    ensures
        ({
            let plain = plain_messages(request.messages@, request.anthropic_file_ids@);
            let recorded = converted_items(items_view(request.raw_input_items@));
            let messages = call_body(request, stream).member("messages"@);
            &&& plain.len() + recorded.len() > 0 ==> messages == Some(
                JsonView::Array(plain + recorded),
            )
            &&& plain.len() + recorded.len() == 0 ==> messages is None
        }),
        key != "messages"@ ==> call_body(request, stream).member(key) == request_body(
            request,
            stream,
            Seq::empty(),
        ).member(key),
{
    let recorded = converted_items(items_view(request.raw_input_items@));
    law_messages_member(request, stream, recorded);
    law_messages_member(request, stream, Seq::empty());
}

/// What was prepared is the request, or the reason why there is none.
pub proof fn law_prepared_calls_hold_their_request(r: Result<PreparedCall, LlmProviderError>)
    ensures
        r matches Ok(call) ==> prepared_request(r) == Ok::<
            http::Request<Vec<u8>>,
            LlmProviderError,
        >(call.request),
        r matches Err(error) ==> prepared_request(r) == Err::<
            http::Request<Vec<u8>>,
            LlmProviderError,
        >(error),
{
}

}
