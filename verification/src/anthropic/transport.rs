//! The requests that go to the Messages and Files APIs through the gateway.

use vstd::prelude::*;
use vstd::utf8::encode_utf8;

use crate::anthropic::error::step_failure;
use crate::headers::header_contents;
use crate::json::{rendered, Json};
use crate::llm::{ErrorView, LlmProviderError};
use crate::outbound::{
    add_header, finish_request, has_room, is_path_char, is_plain_path, new_builder,
    request_contents, set_method, set_uri, try_put_header, uri_of_text, HeadView, RequestMethod,
    RequestView,
};

verus! {

/// The version of the Messages API whose requests and responses this adapter speaks.
pub const ANTHROPIC_API_VERSION: &'static str = "2023-06-01";

/// The opt-in to the Files API. Requests that name attachments by file id need it, and so do
/// all requests for files.
pub const ANTHROPIC_FILES_BETA: &'static str = "files-api-2025-04-14";

/// Which headers of a request the gateway hands on.
#[derive(Debug, Clone, Copy, PartialEq, Eq, Structural)]
pub enum PassthroughMode {
    Nothing,
    Allowlist,
    Everything,
}

/// What the gateway does with the headers of a request.
#[derive(Debug)]
pub struct RequestHeaderRules {
    /// Headers that it sets, by name and value.
    pub set: Vec<(String, String)>,
    pub passthrough: PassthroughMode,
    pub passthrough_allowlist: Vec<String>,
}

/// What the gateway does with the headers of a response.
#[derive(Debug)]
pub struct ResponseHeaderRules {
    /// Headers that it sets, by name and value.
    pub set: Vec<(String, String)>,
}

/// What the gateway does with headers.
#[derive(Debug)]
pub struct HeadersConfig {
    pub request: Option<RequestHeaderRules>,
    pub response: Option<ResponseHeaderRules>,
}

/// The gateway hands on a header of this name as the request has it.
pub open spec fn passes(rules: RequestHeaderRules, name: Seq<char>) -> bool {
    match rules.passthrough {
        PassthroughMode::Nothing => false,
        PassthroughMode::Everything => true,
        PassthroughMode::Allowlist => exists|i: int|
            0 <= i < rules.passthrough_allowlist@.len() && (
            #[trigger] rules.passthrough_allowlist@[i])@ == name,
    }
}

/// The header rules for an upstream of the Messages API.
///
/// `anthropic-version` is set on every request, so that no call needs to. `accept` and
/// `anthropic-beta` pass, so that each request can choose between events and JSON and opt in to
/// beta features. Responses are left as they are.
pub fn upstream_headers() -> (r: HeadersConfig)
    ensures
        r.request matches Some(rules) && {
            &&& rules.set@.len() == 1
            &&& rules.set@[0].0@ == "anthropic-version"@
            &&& rules.set@[0].1@ == ANTHROPIC_API_VERSION@
            &&& rules.set@[0].1@ == "2023-06-01"@
            &&& rules.passthrough == PassthroughMode::Allowlist
            &&& rules.passthrough_allowlist@.len() == 2
            &&& rules.passthrough_allowlist@[0]@ == "accept"@
            &&& rules.passthrough_allowlist@[1]@ == "anthropic-beta"@
        },
        r.response is None,
{
    let mut set: Vec<(String, String)> = Vec::new();
    set.push(("anthropic-version".to_owned(), ANTHROPIC_API_VERSION.to_owned()));
    let mut passthrough_allowlist: Vec<String> = Vec::new();
    passthrough_allowlist.push("accept".to_owned());
    passthrough_allowlist.push("anthropic-beta".to_owned());
    HeadersConfig {
        request: Some(
            RequestHeaderRules {
                set,
                passthrough: PassthroughMode::Allowlist,
                passthrough_allowlist,
            },
        ),
        response: None,
    }
}

/// Where requests for messages go.
pub open spec fn messages_path(upstream_alias: Seq<char>) -> Seq<char> {
    "/"@ + upstream_alias
}

/// Where requests for files go.
pub open spec fn files_path(upstream_alias: Seq<char>) -> Seq<char> {
    "/"@ + upstream_alias + "/v1/files"@
}

/// Where requests for one file go.
pub open spec fn file_path(upstream_alias: Seq<char>, file_id: Seq<char>) -> Seq<char> {
    files_path(upstream_alias) + "/"@ + file_id
}

/// Where requests for messages go.
pub fn messages_uri(upstream_alias: &str) -> (r: String)
    ensures
        r@ == messages_path(upstream_alias@),
{
    let mut uri = "/".to_owned();
    uri.append(upstream_alias);
    uri
}

/// Where requests for files go. The gateway finds the route by the path behind the alias.
pub fn files_uri(upstream_alias: &str) -> (r: String)
    ensures
        r@ == files_path(upstream_alias@),
{
    let mut uri = messages_uri(upstream_alias);
    uri.append("/v1/files");
    uri
}

/// Where requests for one file go.
pub fn file_uri(upstream_alias: &str, file_id: &str) -> (r: String)
    ensures
        r@ == file_path(upstream_alias@, file_id@),
{
    let mut uri = files_uri(upstream_alias);
    uri.append("/");
    uri.append(file_id);
    uri
}

/// The type of content that a request accepts.
pub open spec fn accepted_type(stream: bool) -> Seq<char> {
    if stream {
        "text/event-stream"@
    } else {
        "application/json"@
    }
}

/// The headers of a request for a message.
pub open spec fn messages_headers(stream: bool) -> Map<Seq<char>, Seq<Seq<u8>>> {
    Map::empty().insert("content-type"@, seq![encode_utf8("application/json"@)]).insert(
        "accept"@,
        seq![encode_utf8(accepted_type(stream))],
    ).insert("anthropic-beta"@, seq![encode_utf8(ANTHROPIC_FILES_BETA@)])
}

/// The headers of a request to delete a file.
pub open spec fn delete_headers() -> Map<Seq<char>, Seq<Seq<u8>>> {
    Map::empty().insert("anthropic-beta"@, seq![encode_utf8(ANTHROPIC_FILES_BETA@)])
}

/// `r` is the request with this method, these headers and this body to `path`, or, where that
/// is no URI, the error of the step.
pub open spec fn is_request_to(
    method: RequestMethod,
    path: Seq<char>,
    headers: Map<Seq<char>, Seq<Seq<u8>>>,
    body: Seq<u8>,
    step: Seq<char>,
    r: Result<http::Request<Vec<u8>>, LlmProviderError>,
) -> bool {
    &&& match uri_of_text(path) {
        Ok(uri) => r matches Ok(request) && request_contents(request) == (RequestView {
            head: HeadView { method, uri, headers },
            body,
        }),
        Err(error) => r matches Err(failure) && failure@ == (ErrorView::InvalidResponse {
            detail: step + ": "@ + error,
        }),
    }
    &&& is_plain_path(path) ==> uri_of_text(path) == Ok::<Seq<char>, Seq<char>>(path)
}

/// The request for a message: the body as JSON, and the opt-in without which attachments could
/// not be named by file id.
pub fn messages_request(upstream_alias: &str, stream: bool, body: &Json) -> (r: Result<
    http::Request<Vec<u8>>,
    LlmProviderError,
>)
    ensures
        is_request_to(
            RequestMethod::Post,
            messages_path(upstream_alias@),
            messages_headers(stream),
            encode_utf8(rendered(body@)),
            "failed to build HTTP request"@,
            r,
        ),
{
    proof {
        reveal_strlit("content-type");
        reveal_strlit("accept");
        reveal_strlit("anthropic-beta");
        reveal_strlit("application/json");
        reveal_strlit("text/event-stream");
        reveal_strlit("files-api-2025-04-14");
        assert("content-type"@.len() == 12);
        assert("accept"@.len() == 6);
        assert("anthropic-beta"@.len() == 14);
    }
    let uri = messages_uri(upstream_alias);
    let builder = set_uri(set_method(new_builder(), RequestMethod::Post), uri.as_str());
    let builder = add_header(builder, "content-type", "application/json");
    let accepted = if stream {
        "text/event-stream"
    } else {
        "application/json"
    };
    let builder = add_header(builder, "accept", accepted);
    let builder = add_header(builder, "anthropic-beta", ANTHROPIC_FILES_BETA);
    match finish_request(builder, body.to_bytes()) {
        Ok(request) => Ok(request),
        Err(error) => Err(step_failure("failed to build HTTP request", error.as_str())),
    }
}

/// The request to delete a file.
pub fn delete_request(upstream_alias: &str, file_id: &str) -> (r: Result<
    http::Request<Vec<u8>>,
    LlmProviderError,
>)
    ensures
        is_request_to(
            RequestMethod::Delete,
            file_path(upstream_alias@, file_id@),
            delete_headers(),
            Seq::empty(),
            "failed to build delete request"@,
            r,
        ),
{
    proof {
        reveal_strlit("anthropic-beta");
        reveal_strlit("files-api-2025-04-14");
    }
    let uri = file_uri(upstream_alias, file_id);
    let builder = set_uri(set_method(new_builder(), RequestMethod::Delete), uri.as_str());
    let builder = add_header(builder, "anthropic-beta", ANTHROPIC_FILES_BETA);
    match finish_request(builder, Vec::new()) {
        Ok(request) => Ok(request),
        Err(error) => Err(step_failure("failed to build delete request", error.as_str())),
    }
}

/// A request for a message can be built whatever its body is, to every alias of plain path
/// characters that leaves room in a URI; the alias stands in the URI as it is.
pub proof fn law_plain_alias_builds(
    upstream_alias: Seq<char>,
    stream: bool,
    body: Seq<u8>,
    r: Result<http::Request<Vec<u8>>, LlmProviderError>,
)
    requires
        upstream_alias.len() < 65534,
        forall|i: int| 0 <= i < upstream_alias.len() ==> is_path_char(#[trigger] upstream_alias[i]),
        is_request_to(
            RequestMethod::Post,
            messages_path(upstream_alias),
            messages_headers(stream),
            body,
            "failed to build HTTP request"@,
            r,
        ),
    ensures
        r matches Ok(request) && request_contents(request).head.uri == "/"@ + upstream_alias
            && request_contents(request).body == body,
{
    reveal_strlit("/");
    assert(is_plain_path(messages_path(upstream_alias)));
}

/// The headers that the adapter sets itself, other than the content's type, are those that the
/// gateway hands on.
pub proof fn law_own_headers_pass(rules: RequestHeaderRules, stream: bool, name: Seq<char>)
    requires
        rules.passthrough == PassthroughMode::Allowlist,
        rules.passthrough_allowlist@.len() == 2,
        rules.passthrough_allowlist@[0]@ == "accept"@,
        rules.passthrough_allowlist@[1]@ == "anthropic-beta"@,
    ensures
        messages_headers(stream).contains_key(name) ==> name == "content-type"@ || passes(
            rules,
            name,
        ),
        passes(rules, name) ==> messages_headers(stream).contains_key(name),
{
    assert(rules.passthrough_allowlist@[0]@ == "accept"@);
    assert(rules.passthrough_allowlist@[1]@ == "anthropic-beta"@);
}

/// Opts a request for files in to the Files API. Only headers with thousands of names can be
/// too many for one more; they stay as they are.
pub fn opt_in_to_files(headers: &mut http::HeaderMap<http::HeaderValue>) -> (r: bool)
    ensures
        header_contents(*final(headers)) == (if r {
            header_contents(*old(headers)).insert(
                "anthropic-beta"@,
                seq![encode_utf8(ANTHROPIC_FILES_BETA@)],
            )
        } else {
            header_contents(*old(headers))
        }),
        has_room(header_contents(*old(headers))) ==> r,
{
    proof {
        reveal_strlit("anthropic-beta");
        reveal_strlit("files-api-2025-04-14");
    }
    try_put_header(headers, "anthropic-beta", ANTHROPIC_FILES_BETA)
}

/// Every path starts with the alias: messages go to the alias itself, files to `v1/files` below
/// it, and one file to its own id below that.
pub proof fn law_paths_lie_below_the_alias(upstream_alias: Seq<char>, file_id: Seq<char>)
    ensures
        messages_path(upstream_alias) == seq!['/'] + upstream_alias,
        files_path(upstream_alias) == messages_path(upstream_alias) + "/v1/files"@,
        file_path(upstream_alias, file_id) == files_path(upstream_alias) + seq!['/'] + file_id,
{
    reveal_strlit("/");
    assert("/"@ =~= seq!['/']);
}

/// A request for a message says that it sends JSON, that it accepts a stream of events where it
/// asks for one and JSON otherwise, and that it opts in to files. A request to delete a file says
/// that it opts in. Each says everything once, and nothing else.
pub proof fn law_headers_of_requests(stream: bool)
    ensures
        ({
            let headers = messages_headers(stream);
            &&& headers.dom() == set!["content-type"@, "accept"@, "anthropic-beta"@]
            &&& headers["content-type"@] == seq![encode_utf8("application/json"@)]
            &&& stream ==> headers["accept"@] == seq![encode_utf8("text/event-stream"@)]
            &&& !stream ==> headers["accept"@] == seq![encode_utf8("application/json"@)]
            &&& headers["anthropic-beta"@] == seq![encode_utf8("files-api-2025-04-14"@)]
        }),
        delete_headers().dom() == set!["anthropic-beta"@],
        delete_headers()["anthropic-beta"@] == seq![encode_utf8("files-api-2025-04-14"@)],
{
    reveal_strlit("content-type");
    reveal_strlit("accept");
    reveal_strlit("anthropic-beta");
    assert("content-type"@.len() == 12 && "accept"@.len() == 6 && "anthropic-beta"@.len() == 14);
    assert(messages_headers(stream).dom() =~= set!["content-type"@, "accept"@, "anthropic-beta"@]);
    assert(delete_headers().dom() =~= set!["anthropic-beta"@]);
}

/// A request that could be built has the method, the headers and the body that it was built with,
/// and the URI that its path is; one that could not be built fails with the reason.
pub proof fn law_requests_hold_what_they_are_built_with(
    method: RequestMethod,
    path: Seq<char>,
    headers: Map<Seq<char>, Seq<Seq<u8>>>,
    body: Seq<u8>,
    step: Seq<char>,
    r: Result<http::Request<Vec<u8>>, LlmProviderError>,
)
    requires
        is_request_to(method, path, headers, body, step, r),
    ensures
        r is Ok <==> uri_of_text(path) is Ok,
        r matches Ok(request) ==> {
            &&& request_contents(request).head.method == method
            &&& request_contents(request).head.headers == headers
            &&& request_contents(request).body == body
            &&& uri_of_text(path) matches Ok(uri) && request_contents(request).head.uri == uri
        },
        r matches Err(failure) ==> (uri_of_text(path) matches Err(reason) && failure@ == (
        ErrorView::InvalidResponse { detail: step + ": "@ + reason })),
        is_plain_path(path) ==> (r matches Ok(request) && request_contents(request).head.uri
            == path),
{
}

/// The gateway hands on nothing, everything, or what is listed, as its rules say.
pub proof fn law_what_the_gateway_hands_on(rules: RequestHeaderRules, name: Seq<char>, i: int)
    ensures
        rules.passthrough == PassthroughMode::Nothing ==> !passes(rules, name),
        rules.passthrough == PassthroughMode::Everything ==> passes(rules, name),
        rules.passthrough == PassthroughMode::Allowlist && 0 <= i
            < rules.passthrough_allowlist@.len() ==> passes(
            rules,
            rules.passthrough_allowlist@[i]@,
        ),
        rules.passthrough == PassthroughMode::Allowlist && (forall|j: int|
            0 <= j < rules.passthrough_allowlist@.len() ==> (
            #[trigger] rules.passthrough_allowlist@[j])@ != name) ==> !passes(rules, name),
{
}

}
