//! Outbound requests, as `http::Request` holds them.
//!
//! The functions at the end of this file are the whole of what is taken from the `http` crate
//! for them.

use vstd::prelude::*;
use vstd::utf8::encode_utf8;

use crate::headers::header_contents;

verus! {

/// The method of a request.
#[derive(Debug, Clone, Copy, PartialEq, Eq, Structural)]
pub enum RequestMethod {
    Get,
    Post,
    Delete,
}

/// A request as far as it is built.
#[verifier::external_type_specification]
#[verifier::external_body]
pub struct ExBuilder(http::request::Builder);

/// A request with its body.
#[verifier::external_type_specification]
#[verifier::external_body]
#[verifier::reject_recursive_types(T)]
pub struct ExRequest<T>(http::Request<T>);

/// What stands before the body of a request.
pub struct HeadView {
    pub method: RequestMethod,
    /// The text of the URI.
    pub uri: Seq<char>,
    /// The values under each header name, in the order in which they were added.
    pub headers: Map<Seq<char>, Seq<Seq<u8>>>,
}

/// A request.
pub struct RequestView {
    pub head: HeadView,
    pub body: Seq<u8>,
}

/// What a builder holds: the head so far, or the text of the first error.
pub uninterp spec fn builder_contents(builder: http::request::Builder) -> Result<
    HeadView,
    Seq<char>,
>;

/// What a request holds.
pub uninterp spec fn request_contents(request: http::Request<Vec<u8>>) -> RequestView;

/// What a text is as a URI: the URI's own text, or that of the error.
pub uninterp spec fn uri_of_text(text: Seq<char>) -> Result<Seq<char>, Seq<char>>;

/// A character that stands for itself in the path of a URI.
pub open spec fn is_path_char(c: char) -> bool {
    ||| 'a' as u32 <= c as u32 <= 'z' as u32
    ||| 'A' as u32 <= c as u32 <= 'Z' as u32
    ||| '0' as u32 <= c as u32 <= '9' as u32
    ||| c == '/'
    ||| c == '-'
    ||| c == '_'
    ||| c == '.'
    ||| c == '~'
}

/// A path that is a URI as it stands.
pub open spec fn is_plain_path(text: Seq<char>) -> bool {
    &&& 0 < text.len() <= 65534
    &&& text[0] == '/'
    &&& forall|i: int| 0 <= i < text.len() ==> is_path_char(#[trigger] text[i])
}

/// A header name of lower-case letters and hyphens.
pub open spec fn is_plain_name(name: Seq<char>) -> bool {
    &&& 0 < name.len() <= 64
    &&& forall|i: int|
        0 <= i < name.len() ==> ('a' as u32 <= (#[trigger] name[i]) as u32 <= 'z' as u32 || name[i]
            == '-')
}

/// A header value of visible ASCII and spaces.
pub open spec fn is_plain_value(value: Seq<char>) -> bool {
    forall|i: int| 0 <= i < value.len() ==> 32 <= (#[trigger] value[i]) as u32 <= 126
}

/// The header names of a map are so few that it can take another one, however they hash.
pub open spec fn has_room(headers: Map<Seq<char>, Seq<Seq<u8>>>) -> bool {
    headers.dom().finite() && headers.dom().len() < 6553
}

/// The values under a name with one more behind them.
pub open spec fn with_value(
    headers: Map<Seq<char>, Seq<Seq<u8>>>,
    name: Seq<char>,
    value: Seq<u8>,
) -> Map<Seq<char>, Seq<Seq<u8>>> {
    if headers.contains_key(name) {
        headers.insert(name, headers[name].push(value))
    } else {
        headers.insert(name, seq![value])
    }
}

/// A head so far, or an error.
pub type BuildView = Result<HeadView, Seq<char>>;

/// The head of a `GET` of `/` without headers.
pub open spec fn fresh_head() -> BuildView {
    Ok(HeadView { method: RequestMethod::Get, uri: seq!['/'], headers: Map::empty() })
}

/// The head with another method.
pub open spec fn head_with_method(built: BuildView, method: RequestMethod) -> BuildView {
    match built {
        Ok(head) => Ok(HeadView { method, ..head }),
        Err(error) => Err(error),
    }
}

/// The head with another URI, or the error that there is none.
pub open spec fn head_with_uri(built: BuildView, uri: Result<Seq<char>, Seq<char>>) -> BuildView {
    match (built, uri) {
        (Ok(head), Ok(uri)) => Ok(HeadView { uri, ..head }),
        (Ok(_), Err(error)) => Err(error),
        (Err(error), _) => Err(error),
    }
}

/// The head with one more header value.
pub open spec fn head_with_value(built: BuildView, name: Seq<char>, value: Seq<u8>) -> BuildView {
    match built {
        Ok(head) => Ok(HeadView { headers: with_value(head.headers, name, value), ..head }),
        Err(error) => Err(error),
    }
}

/// `http::Request::builder`: a `GET` of `/` without headers.
#[verifier::external_body]
pub(crate) fn new_builder() -> (r: http::request::Builder)
    ensures
        builder_contents(r) == fresh_head(),
{
    http::Request::builder()
}

/// `http::request::Builder::method`: sets the method, where there is no error yet.
#[verifier::external_body]
pub(crate) fn set_method(builder: http::request::Builder, method: RequestMethod) -> (r:
    http::request::Builder)
    ensures
        builder_contents(r) == head_with_method(builder_contents(builder), method),
{
    builder.method(
        match method {
            RequestMethod::Get => http::Method::GET,
            RequestMethod::Post => http::Method::POST,
            RequestMethod::Delete => http::Method::DELETE,
        },
    )
}

/// `http::request::Builder::uri`: sets the URI, where there is no error yet and the text is
/// one. A plain path is one, and stays as it is; what becomes of any other text is left unsaid.
#[verifier::external_body]
pub(crate) fn set_uri(builder: http::request::Builder, text: &str) -> (r: http::request::Builder)
    ensures
        builder_contents(r) == head_with_uri(builder_contents(builder), uri_of_text(text@)),
        is_plain_path(text@) ==> builder_contents(r) == head_with_uri(
            builder_contents(builder),
            Ok(text@),
        ),
{
    builder.uri(text)
}

/// `http::request::Builder::header`: adds a value under a name, where there is no error yet.
#[verifier::external_body]
pub(crate) fn add_header(builder: http::request::Builder, name: &str, value: &str) -> (r:
    http::request::Builder)
    requires
        is_plain_name(name@),
        is_plain_value(value@),
        builder_contents(builder) matches Ok(head) ==> has_room(head.headers),
    ensures
        builder_contents(r) == head_with_value(
            builder_contents(builder),
            name@,
            encode_utf8(value@),
        ),
{
    builder.header(name, value)
}

/// `http::request::Builder::body`: the request, where there was no error.
#[verifier::external_body]
pub(crate) fn finish_request(builder: http::request::Builder, body: Vec<u8>) -> (r: Result<
    http::Request<Vec<u8>>,
    String,
>)
    ensures
        match r {
            Ok(request) => builder_contents(builder) == Ok::<HeadView, Seq<char>>(
                request_contents(request).head,
            ) && request_contents(request).body == body@,
            Err(error) => builder_contents(builder) == Err::<HeadView, Seq<char>>(error@),
        },
{
    builder.body(body).map_err(|error| error.to_string())
}

/// `http::HeaderMap::try_insert`: puts the value under the name in place of those that stood
/// there, unless the map cannot grow; then it holds what it held. A map that has room can; for
/// one with more names that depends on how they hash, and is left unsaid.
#[verifier::external_body]
pub(crate) fn try_put_header(
    headers: &mut http::HeaderMap<http::HeaderValue>,
    name: &'static str,
    value: &'static str,
) -> (r: bool)
    requires
        is_plain_name(name@),
        is_plain_value(value@),
    ensures
        header_contents(*final(headers)) == (if r {
            header_contents(*old(headers)).insert(name@, seq![encode_utf8(value@)])
        } else {
            header_contents(*old(headers))
        }),
        has_room(header_contents(*old(headers))) ==> r,
{
    headers.try_insert(name, http::HeaderValue::from_static(value)).is_ok()
}

/// A value is put behind those that stand under its name already, and every other name keeps
/// what stands under it.
pub proof fn law_values_are_put_behind(
    headers: Map<Seq<char>, Seq<Seq<u8>>>,
    name: Seq<char>,
    value: Seq<u8>,
    other: Seq<char>,
)
    ensures
        ({
            let after = with_value(headers, name, value);
            &&& after.contains_key(name)
            &&& after[name].last() == value
            &&& headers.contains_key(name) ==> after[name].drop_last() == headers[name]
            &&& !headers.contains_key(name) ==> after[name].len() == 1
            &&& other != name ==> after.contains_key(other) == headers.contains_key(other)
            &&& other != name && headers.contains_key(other) ==> after[other] == headers[other]
        }),
{
    if headers.contains_key(name) {
        assert(with_value(headers, name, value)[name].drop_last() =~= headers[name]);
    }
}

/// Each step of a build sets its own part and leaves the others, and the first failure stays.
pub proof fn law_builds_set_one_part(
    built: BuildView,
    method: RequestMethod,
    uri: Result<Seq<char>, Seq<char>>,
    name: Seq<char>,
    value: Seq<u8>,
)
    ensures
        built matches Ok(head) ==> {
            &&& head_with_method(built, method) matches Ok(after) && after.method == method
                && after.uri == head.uri && after.headers == head.headers
            &&& head_with_value(built, name, value) matches Ok(after) && after.method
                == head.method && after.uri == head.uri && after.headers.contains_key(name)
                && after.headers[name].last() == value
            &&& uri matches Ok(u) ==> (head_with_uri(built, uri) matches Ok(after) && after.uri == u
                && after.method == head.method && after.headers == head.headers)
            &&& uri matches Err(reason) ==> head_with_uri(built, uri) == Err::<
                HeadView,
                Seq<char>,
            >(reason)
        },
        built is Err ==> head_with_method(built, method) == built && head_with_uri(built, uri)
            == built && head_with_value(built, name, value) == built,
        fresh_head() matches Ok(head) && head.method == RequestMethod::Get && head.uri.len() == 1
            && head.uri[0] == '/' && head.headers.dom() == Set::<Seq<char>>::empty(),
{
}

}
