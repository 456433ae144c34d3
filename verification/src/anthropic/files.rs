//! The Files API client: what its calls send, and what their responses come to.

use std::sync::Arc;

use vstd::prelude::*;

use crate::anthropic::error::{
    check_success, diagnostics_of, error_from_reading, format_diag_headers, is_diagnostic_text,
    is_error_of, is_success, retry_after, retry_after_of, step_failure,
};
use crate::anthropic::event::UNEXPECTED_SHAPE;
use crate::anthropic::wire::{check_structure, is_structure, read_required_text, required_text};
use crate::headers::header_contents;
use crate::json::{parsed_bytes, reading_view, Json, JsonView};
use crate::llm::{accepts_any_text, ErrorView, LlmProviderError};
use crate::text::{lossy_text, text_from_bytes};

verus! {

/// The status of a response that there is no such file.
pub const NOT_FOUND: u16 = 404;

/// A file that the Files API keeps.
#[derive(Debug)]
pub struct AnthropicFileRef {
    pub file_id: String,
}

impl Clone for AnthropicFileRef {
    fn clone(&self) -> (r: AnthropicFileRef)
        ensures
            r.file_id@ == self.file_id@,
    {
        AnthropicFileRef { file_id: self.file_id.clone() }
    }
}

/// The client for the Files API. All calls go through the gateway.
#[derive(Debug)]
pub struct AnthropicFilesClient<G> {
    pub gateway: Arc<G>,
}

impl<G> AnthropicFilesClient<G> {
    /// A client that sends its calls through `gateway`.
    pub fn new(gateway: Arc<G>) -> (r: Self)
        ensures
            r.gateway == gateway,
    {
        AnthropicFilesClient { gateway }
    }
}

/// The part of an upload that holds the file.
#[derive(Debug)]
pub struct FilePart {
    pub field: String,
    pub filename: String,
    pub content_type: String,
    pub data: Vec<u8>,
}

/// The part of an upload that holds the file. The filename is also the name of the form field.
pub fn file_part(filename: &str, content_type: &str, data: Vec<u8>) -> (r: FilePart)
    ensures
        r.field@ == filename@,
        r.filename@ == filename@,
        r.content_type@ == content_type@,
        r.data@ == data@,
{
    FilePart {
        field: filename.to_owned(),
        filename: filename.to_owned(),
        content_type: content_type.to_owned(),
        data,
    }
}

/// The id of the file that was uploaded, or why the response does not tell it.
pub open spec fn uploaded_id(reading: Result<JsonView, Seq<char>>) -> Result<Seq<char>, Seq<char>> {
    match reading {
        Ok(v) => match required_text(v, "id"@, 0) {
            Some(id) => if is_structure(v, 1) {
                Ok(id)
            } else {
                Err(UNEXPECTED_SHAPE@)
            },
            None => Err(UNEXPECTED_SHAPE@),
        },
        Err(reason) => Err(reason),
    }
}

/// What a result of an upload says.
pub open spec fn upload_view(r: Result<AnthropicFileRef, LlmProviderError>) -> Result<
    Seq<char>,
    ErrorView,
> {
    match r {
        Ok(file) => Ok(file.file_id@),
        Err(error) => Err(error@),
    }
}

/// `outcome` is what the response to an upload comes to: a response with this status, this wait
/// and these diagnostic headers, where `reading` is what a JSON parser makes of its body and
/// `body` is the body as text.
pub open spec fn is_upload_outcome<S: Fn(&str) -> String>(
    sanitize: S,
    status: u16,
    retry_after_secs: Option<u64>,
    diagnostics: Seq<char>,
    reading: Result<JsonView, Seq<char>>,
    body: Seq<char>,
    outcome: Result<Seq<char>, ErrorView>,
) -> bool {
    if is_success(status) {
        match uploaded_id(reading) {
            Ok(id) => outcome == Ok::<Seq<char>, ErrorView>(id),
            Err(reason) => outcome == Err::<Seq<char>, ErrorView>(
                ErrorView::InvalidResponse {
                    detail: "failed to parse upload response"@ + ": "@ + reason,
                },
            ),
        }
    } else {
        outcome matches Err(error) && is_error_of(
            sanitize,
            status,
            retry_after_secs,
            diagnostics,
            reading,
            body,
            error,
        )
    }
}

/// What the response to an upload comes to, given its diagnostic headers, what a JSON parser
/// makes of its body and the body as text.
pub fn upload_from_reading<S: Fn(&str) -> String>(
    status: u16,
    retry_after_secs: Option<u64>,
    diagnostics: &str,
    reading: Result<Json, String>,
    body: &str,
    sanitize: &S,
) -> (r: Result<AnthropicFileRef, LlmProviderError>)
    requires
        accepts_any_text(*sanitize),
    ensures
        is_upload_outcome(
            *sanitize,
            status,
            retry_after_secs,
            diagnostics@,
            reading_view(reading),
            body@,
            upload_view(r),
        ),
{
    if !check_success(status) {
        return Err(
            error_from_reading(status, retry_after_secs, diagnostics, reading, body, sanitize),
        );
    }
    match reading {
        Ok(v) => {
            if check_structure(&v, 1) {
                if let Some(file_id) = read_required_text(&v, "id", 0) {
                    return Ok(AnthropicFileRef { file_id });
                }
            }
            Err(step_failure("failed to parse upload response", UNEXPECTED_SHAPE))
        },
        Err(reason) => Err(step_failure("failed to parse upload response", reason.as_str())),
    }
}

/// What the response to an upload comes to.
pub fn upload_outcome<S: Fn(&str) -> String>(
    status: u16,
    headers: &http::HeaderMap<http::HeaderValue>,
    bytes: &[u8],
    sanitize: &S,
) -> (r: Result<AnthropicFileRef, LlmProviderError>)
    requires
        accepts_any_text(*sanitize),
    ensures
        is_upload_outcome(
            *sanitize,
            status,
            retry_after_of(header_contents(*headers)),
            diagnostics_of(header_contents(*headers)),
            parsed_bytes(bytes@),
            lossy_text(bytes@),
            upload_view(r),
        ),
        is_diagnostic_text(
            header_contents(*headers),
            diagnostics_of(header_contents(*headers)),
        ),
{
    let body = text_from_bytes(bytes);
    let diagnostics = format_diag_headers(headers);
    upload_from_reading(
        status,
        retry_after(headers),
        diagnostics.as_str(),
        Json::parse_bytes(bytes),
        body.as_str(),
        sanitize,
    )
}

/// What there is to do about the response to a deletion.
#[derive(Debug, Clone, Copy, PartialEq, Eq, Structural)]
pub enum DeleteStep {
    /// The file is gone.
    Done,
    /// The body tells what went wrong.
    ReadError,
}

/// What there is to do about the response to a deletion. A file that is not there is gone, so
/// that a deletion can be repeated.
pub fn delete_step(status: u16) -> (r: DeleteStep)
    ensures
        r == (if status == NOT_FOUND || is_success(status) {
            DeleteStep::Done
        } else {
            DeleteStep::ReadError
        }),
        r == DeleteStep::Done <==> status == 404 || status / 100 == 2,
{
    if status == NOT_FOUND || check_success(status) {
        DeleteStep::Done
    } else {
        DeleteStep::ReadError
    }
}

/// The id that the response to an upload tells is the file's, as it stands; without an id that is
/// text there is none, and the reason of a body that is no JSON is handed on.
pub proof fn law_uploaded_id_is_what_was_told(
    members: Map<Seq<char>, JsonView>,
    reason: Seq<char>,
)
    ensures
        members.contains_key("id"@) ==> (members["id"@] matches JsonView::Text(id) ==> uploaded_id(
            Ok(JsonView::Object(members)),
        ) == Ok::<Seq<char>, Seq<char>>(id)),
        !(members.contains_key("id"@) && members["id"@] is Text) ==> uploaded_id(
            Ok(JsonView::Object(members)),
        ) == Err::<Seq<char>, Seq<char>>("unexpected shape"@),
        uploaded_id(Err(reason)) == Err::<Seq<char>, Seq<char>>(reason),
{
}

/// What an upload comes to: the file, where the response is a success that tells its id; a failure
/// to read it, where it is a success that does not; and the error of the response otherwise.
pub proof fn law_uploads_come_to_their_file<S: Fn(&str) -> String>(
    sanitize: S,
    status: u16,
    retry_after_secs: Option<u64>,
    diagnostics: Seq<char>,
    reading: Result<JsonView, Seq<char>>,
    body: Seq<char>,
    outcome: Result<Seq<char>, ErrorView>,
)
    requires
        is_upload_outcome(
            sanitize,
            status,
            retry_after_secs,
            diagnostics,
            reading,
            body,
            outcome,
        ),
    ensures
        status / 100 == 2 ==> (uploaded_id(reading) matches Ok(id) ==> outcome == Ok::<
            Seq<char>,
            ErrorView,
        >(id)),
        status / 100 == 2 ==> (uploaded_id(reading) matches Err(reason) ==> outcome == Err::<
            Seq<char>,
            ErrorView,
        >(
            ErrorView::InvalidResponse {
                detail: "failed to parse upload response"@ + ": "@ + reason,
            },
        )),
        status / 100 != 2 ==> (outcome matches Err(error) && is_error_of(
            sanitize,
            status,
            retry_after_secs,
            diagnostics,
            reading,
            body,
            error,
        )),
{
}

/// A result of an upload says what it holds.
pub proof fn law_upload_results_say_what_they_hold(r: Result<AnthropicFileRef, LlmProviderError>)
    ensures
        r matches Ok(file) ==> upload_view(r) == Ok::<Seq<char>, ErrorView>(file.file_id@),
        r matches Err(error) ==> upload_view(r) == Err::<Seq<char>, ErrorView>(error@),
{
}

/// A file is told by its id alone also where the response is an array; an array of more, and what
/// is neither an object nor an array, tells no file.
pub proof fn law_uploads_may_be_arrays(items: Seq<JsonView>, v: JsonView)
    ensures
        items.len() == 1 ==> (items[0] matches JsonView::Text(id) ==> uploaded_id(
            Ok(JsonView::Array(items)),
        ) == Ok::<Seq<char>, Seq<char>>(id)),
        items.len() != 1 ==> uploaded_id(Ok(JsonView::Array(items))) is Err,
        !(v is Object) && !(v is Array) ==> uploaded_id(Ok(v)) is Err,
{
}

}
