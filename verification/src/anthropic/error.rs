//! What is made of a response that is no answer: the error that the caller gets, and the line
//! that goes to the log.

use vstd::prelude::*;
use vstd::seq_lib::lemma_multiset_commutative;

use crate::anthropic::event::{decode_error_detail, error_detail_of};
use crate::headers::{
    entries_view, header_bytes, header_contents, header_entries, header_text, header_text_of,
    header_value, is_walk, law_walks_hold_the_same_headers, values_under,
};
use crate::json::{parsed_bytes, reading_view, rendered, Json, JsonView};
use crate::llm::{
    accepts_any_text, law_sanitized_text_is_what_the_function_returns, sanitizes_to, ErrorView,
    LlmProviderError, RawDetail,
};
use crate::order::{
    law_sorting_forgets_order, law_sorting_keeps_texts, sort_texts, sorted_texts, text_le,
};
use crate::text::{
    decimal, decimal_text, first_chars, has_part, has_prefix, join, join_texts,
    law_written_numbers_read_back, lemma_has_part, lemma_joined_part, lemma_part_of_part, lossy_text, parse_u64,
    starts_with, str_eq, take_chars, text_from_bytes, trim, trim_text, truncate_for_log,
    truncated_text, u64_of_text, views,
};

verus! {

/// How much of a body that cannot be read is quoted in the error.
pub const SNIPPET_CHARS: usize = 200;

/// How much of a body goes to the log.
pub const LOGGED_BODY_CHARS: usize = 4000;

/// The status of a response to a client that asks too often.
pub const TOO_MANY_REQUESTS: u16 = 429;

/// The statuses that tell of success.
pub open spec fn is_success(status: u16) -> bool {
    200 <= status <= 299
}

/// Whether the status tells of success.
pub fn check_success(status: u16) -> (r: bool)
    ensures
        r == is_success(status),
{
    200 <= status && status <= 299
}

/// The seconds that the header `retry-after` asks to wait, where its first value is a number.
pub open spec fn retry_after_of(contents: Map<Seq<char>, Seq<Seq<u8>>>) -> Option<u64> {
    if contents.contains_key("retry-after"@) {
        match header_text_of(contents["retry-after"@][0]) {
            Some(text) => u64_of_text(text),
            None => None,
        }
    } else {
        None
    }
}

/// What the provider says of an error, between its type and the HTTP status.
pub open spec fn told_message(
    error_type: Seq<char>,
    message: Seq<char>,
    status: u16,
) -> Seq<char> {
    let upstream = trim_text(message);
    if upstream.len() == 0 {
        "["@ + error_type + "] (HTTP "@ + decimal_text(status as nat) + ")"@
    } else {
        "["@ + error_type + "] "@ + upstream + " (HTTP "@ + decimal_text(status as nat) + ")"@
    }
}

/// The message for a provider error: its type, what the provider says, the HTTP status, and the
/// diagnostic headers where there are any, so that it helps even where the provider's own words
/// say nothing.
pub open spec fn composed_message(
    error_type: Seq<char>,
    message: Seq<char>,
    status: u16,
    diagnostics: Seq<char>,
) -> Seq<char> {
    if diagnostics.len() == 0 {
        told_message(error_type, message, status)
    } else {
        told_message(error_type, message, status) + " ["@ + diagnostics + "]"@
    }
}

/// The detail of an error whose body cannot be read.
pub open spec fn unparseable_detail(status: u16, snippet: Seq<char>) -> Seq<char> {
    "non-SSE response (HTTP "@ + decimal_text(status as nat) + ") with unparseable body: "@
        + snippet
}

/// The error for a step that failed for a reason that is told.
pub fn step_failure(step: &str, reason: &str) -> (r: LlmProviderError)
    ensures
        r@ == (ErrorView::InvalidResponse { detail: step@ + ": "@ + reason@ }),
{
    let mut detail = step.to_owned();
    detail.append(": ");
    detail.append(reason);
    LlmProviderError::InvalidResponse { detail }
}

/// The type and the message of the error that a body tells of, where it can be read.
pub open spec fn told_error(reading: Result<JsonView, Seq<char>>) -> Option<
    (Seq<char>, Seq<char>),
> {
    match reading {
        Ok(v) => error_detail_of(v),
        Err(_) => None,
    }
}

/// The error is one of a limit on how often requests may come.
pub open spec fn is_rate_limit(error_type: Seq<char>, status: u16) -> bool {
    error_type == "rate_limit_error"@ || status == TOO_MANY_REQUESTS
}

/// `error` is what a response comes to: a response with this status, this wait and these
/// diagnostic headers, where `reading` is what a JSON parser makes of its body and `body` is the
/// body as text.
pub open spec fn is_error_of<S: Fn(&str) -> String>(
    sanitize: S,
    status: u16,
    retry_after_secs: Option<u64>,
    diagnostics: Seq<char>,
    reading: Result<JsonView, Seq<char>>,
    body: Seq<char>,
    error: ErrorView,
) -> bool {
    match told_error(reading) {
        Some((error_type, message)) => if is_rate_limit(error_type, status) {
            error == (ErrorView::RateLimited { retry_after_secs })
        } else {
            let composed = composed_message(error_type, message, status, diagnostics);
            exists|shown: Seq<char>| #[trigger]
                sanitizes_to(sanitize, composed, shown) && error == (ErrorView::ProviderError {
                    code: error_type,
                    message: shown,
                    raw_detail: Some(message),
                })
        },
        None => exists|snippet: Seq<char>|
            #![trigger sanitizes_to(sanitize, first_chars(body, SNIPPET_CHARS as nat), snippet)]
            sanitizes_to(sanitize, first_chars(body, SNIPPET_CHARS as nat), snippet) && error == (
            ErrorView::InvalidResponse { detail: unparseable_detail(status, snippet) }),
    }
}

/// Reads the header `retry-after`.
pub(crate) fn retry_after(headers: &http::HeaderMap<http::HeaderValue>) -> (r: Option<u64>)
    ensures
        r == retry_after_of(header_contents(*headers)),
{
    proof {
        reveal_strlit("retry-after");
    }
    match header_value(headers, "retry-after") {
        Some(value) => match header_text(value) {
            Some(text) => parse_u64(text),
            None => None,
        },
        None => None,
    }
}

/// Composes the message for a provider error.
fn compose_message(error_type: &str, message: &str, status: u16, diagnostics: &str) -> (r: String)
    ensures
        r@ == composed_message(error_type@, message@, status, diagnostics@),
{
    let upstream = trim(message);
    let mut out = "[".to_owned();
    out.append(error_type);
    if upstream.unicode_len() == 0 {
        out.append("] (HTTP ");
    } else {
        out.append("] ");
        out.append(upstream);
        out.append(" (HTTP ");
    }
    out.append(decimal(status).as_str());
    out.append(")");
    if diagnostics.unicode_len() > 0 {
        out.append(" [");
        out.append(diagnostics);
        out.append("]");
    }
    out
}

/// The error for a response, given its diagnostic headers, what a JSON parser makes of its body
/// and the body as text.
pub fn error_from_reading<S: Fn(&str) -> String>(
    status: u16,
    retry_after_secs: Option<u64>,
    diagnostics: &str,
    reading: Result<Json, String>,
    body: &str,
    sanitize: &S,
) -> (r: LlmProviderError)
    requires
        accepts_any_text(*sanitize),
    ensures
        is_error_of(
            *sanitize,
            status,
            retry_after_secs,
            diagnostics@,
            reading_view(reading),
            body@,
            r@,
        ),
{
    let told = match reading {
        Ok(v) => decode_error_detail(&v),
        Err(_) => None,
    };
    match told {
        Some((error_type, message)) => {
            if str_eq(error_type.as_str(), "rate_limit_error") || status == TOO_MANY_REQUESTS {
                return LlmProviderError::RateLimited { retry_after_secs };
            }
            let composed = compose_message(
                error_type.as_str(),
                message.as_str(),
                status,
                diagnostics,
            );
            let given: &str = composed.as_str();
            let shown = sanitize(given);
            proof {
                assert(sanitizes_to(*sanitize, composed@, shown@));
            }
            LlmProviderError::ProviderError {
                code: error_type,
                message: shown,
                raw_detail: Some(RawDetail(message)),
            }
        },
        None => {
            let head = take_chars(body, SNIPPET_CHARS);
            let given: &str = head.as_str();
            let snippet = sanitize(given);
            proof {
                assert(sanitizes_to(*sanitize, head@, snippet@));
            }
            let mut detail = "non-SSE response (HTTP ".to_owned();
            detail.append(decimal(status).as_str());
            detail.append(") with unparseable body: ");
            detail.append(snippet.as_str());
            LlmProviderError::InvalidResponse { detail }
        },
    }
}

/// Parses an error response into an `LlmProviderError`.
///
/// Errors come wrapped as `{"type":"error","error":{"type":"...","message":"..."}}`. The HTTP
/// status and the diagnostic headers are folded into the message. The type `rate_limit_error`,
/// and the status of too many requests, go to the rate-limit variant with what `retry-after`
/// says.
pub fn parse_anthropic_error<S: Fn(&str) -> String>(
    status: u16,
    headers: &http::HeaderMap<http::HeaderValue>,
    bytes: &[u8],
    sanitize: &S,
) -> (r: LlmProviderError)
    requires
        accepts_any_text(*sanitize),
    ensures
        is_error_of(
            *sanitize,
            status,
            retry_after_of(header_contents(*headers)),
            diagnostics_of(header_contents(*headers)),
            parsed_bytes(bytes@),
            lossy_text(bytes@),
            r@,
        ),
        is_diagnostic_text(
            header_contents(*headers),
            diagnostics_of(header_contents(*headers)),
        ),
{
    let body = text_from_bytes(bytes);
    let diagnostics = format_diag_headers(headers);
    error_from_reading(
        status,
        retry_after(headers),
        diagnostics.as_str(),
        Json::parse_bytes(bytes),
        body.as_str(),
        sanitize,
    )
}

/// A body that tells of no error gives an invalid response. A limit on how often requests may
/// come gets its own error, by the type that the body tells or by the status, with the wait
/// that the headers ask for. Any other error is the provider's, under the provider's type.
pub proof fn law_errors_go_by_what_is_told<S: Fn(&str) -> String>(
    sanitize: S,
    status: u16,
    retry_after_secs: Option<u64>,
    diagnostics: Seq<char>,
    reading: Result<JsonView, Seq<char>>,
    body: Seq<char>,
    error: ErrorView,
)
    requires
        is_error_of(sanitize, status, retry_after_secs, diagnostics, reading, body, error),
    ensures
        error is RateLimited <==> (told_error(reading) matches Some(told) && is_rate_limit(
            told.0,
            status,
        )),
        error is RateLimited ==> error->retry_after_secs == retry_after_secs,
        error is InvalidResponse <==> told_error(reading) is None,
        error is ProviderError ==> (told_error(reading) matches Some(told) && error->code == told.0
            && error->raw_detail == Some(told.1)),
{
}

/// The message for a provider error names the provider's type for it at the start, and has in it
/// the HTTP status and the diagnostic headers, whatever the provider's own words are.
pub proof fn law_message_names_type_status_and_headers(
    error_type: Seq<char>,
    message: Seq<char>,
    status: u16,
    diagnostics: Seq<char>,
)
    ensures
        ({
            let composed = composed_message(error_type, message, status, diagnostics);
            let head = "["@ + error_type + "]"@;
            &&& head.is_prefix_of(composed)
            &&& has_part(composed, " (HTTP "@ + decimal_text(status as nat) + ")"@)
            &&& has_part(composed, diagnostics)
        }),
{
    reveal_strlit("]");
    reveal_strlit("] ");
    reveal_strlit("] (HTTP ");
    reveal_strlit(" (HTTP ");
    let told = told_message(error_type, message, status);
    let composed = composed_message(error_type, message, status, diagnostics);
    let head = "["@ + error_type + "]"@;
    let tail = " (HTTP "@ + decimal_text(status as nat) + ")"@;
    assert("] (HTTP "@ =~= "]"@ + " (HTTP "@);
    assert("] "@ =~= "]"@ + seq![' ']);
    let between = if trim_text(message).len() == 0 {
        Seq::empty()
    } else {
        seq![' '] + trim_text(message)
    };
    assert(told =~= head + between + tail);
    let rest = if diagnostics.len() == 0 {
        Seq::empty()
    } else {
        " ["@ + diagnostics + "]"@
    };
    assert(composed =~= (head + between) + tail + rest);
    lemma_has_part(head + between, tail, rest);
    assert(composed.take(head.len() as int) =~= head);
    if diagnostics.len() == 0 {
        lemma_has_part(Seq::empty(), diagnostics, composed);
        assert(Seq::empty() + diagnostics + composed =~= composed);
    } else {
        lemma_has_part(told + " ["@, diagnostics, "]"@);
        assert(composed =~= (told + " ["@) + diagnostics + "]"@);
    }
}

/// A header that helps in finding out what went wrong.
pub open spec fn is_diagnostic(name: Seq<char>) -> bool {
    ||| name == "request-id"@
    ||| name == "retry-after"@
    ||| name == "content-type"@
    ||| has_prefix(name, "anthropic-"@)
}

/// The line for one header, where it helps and its value is text.
pub open spec fn diagnostic_line(entry: (Seq<char>, Seq<u8>)) -> Option<Seq<char>> {
    if is_diagnostic(entry.0) {
        match header_text_of(entry.1) {
            Some(text) => Some(entry.0 + "="@ + text),
            None => None,
        }
    } else {
        None
    }
}

/// The lines for a list of headers, in its order.
pub open spec fn diagnostic_lines(entries: Seq<(Seq<char>, Seq<u8>)>) -> Seq<Seq<char>>
    decreases entries.len(),
{
    if entries.len() == 0 {
        Seq::empty()
    } else {
        let before = diagnostic_lines(entries.drop_last());
        match diagnostic_line(entries.last()) {
            Some(line) => before.push(line),
            None => before,
        }
    }
}

/// The lines for a list of headers, sorted and joined.
pub open spec fn diagnostic_text(entries: Seq<(Seq<char>, Seq<u8>)>) -> Seq<char> {
    join_texts(sorted_texts(diagnostic_lines(entries)), ", "@)
}

/// `out` is the text for the headers of a map.
pub open spec fn is_diagnostic_text(
    contents: Map<Seq<char>, Seq<Seq<u8>>>,
    out: Seq<char>,
) -> bool {
    exists|entries: Seq<(Seq<char>, Seq<u8>)>| #[trigger]
        is_walk(contents, entries) && out == diagnostic_text(entries)
}

/// The text for the headers of a map.
pub open spec fn diagnostics_of(contents: Map<Seq<char>, Seq<Seq<u8>>>) -> Seq<char> {
    choose|out: Seq<char>| is_diagnostic_text(contents, out)
}

/// Whether a header helps in finding out what went wrong.
fn check_diagnostic(name: &str) -> (r: bool)
    ensures
        r == is_diagnostic(name@),
{
    str_eq(name, "request-id") || str_eq(name, "retry-after") || str_eq(name, "content-type")
        || starts_with(name, "anthropic-")
}

/// The headers of a response that help in finding out what went wrong: the request's id, the
/// wait, the type of the content, and all that begin with `anthropic-`. The others are noise.
pub fn format_diag_headers(headers: &http::HeaderMap<http::HeaderValue>) -> (r: String)
    ensures
        is_diagnostic_text(header_contents(*headers), r@),
        r@ == diagnostics_of(header_contents(*headers)),
{
    let entries = header_entries(headers);
    let ghost walk = entries_view(entries@);
    let mut lines: Vec<String> = Vec::new();
    let mut i: usize = 0;
    proof {
        assert(views(lines@) =~= diagnostic_lines(walk.take(0)));
    }
    while i < entries.len()
        invariant
            i <= entries@.len(),
            walk == entries_view(entries@),
            views(lines@) == diagnostic_lines(walk.take(i as int)),
        decreases entries@.len() - i,
    {
        let name = entries[i].0.as_str();
        let ghost before = lines@;
        proof {
            assert(walk.take(i + 1).drop_last() =~= walk.take(i as int));
            assert(walk.take(i + 1).last() == (name@, header_bytes(entries@[i as int].1)));
        }
        if check_diagnostic(name) {
            if let Some(text) = header_text(&entries[i].1) {
                let mut line = name.to_owned();
                line.append("=");
                line.append(text);
                lines.push(line);
                proof {
                    assert(views(lines@) =~= views(before).push(line@));
                }
            }
        }
        i = i + 1;
    }
    proof {
        assert(walk.take(i as int) =~= walk);
    }
    let sorted = sort_texts(lines);
    let out = join(&sorted, ", ");
    proof {
        let contents = header_contents(*headers);
        assert(is_walk(contents, walk));
        assert(is_diagnostic_text(contents, out@));
        law_diagnostics_forget_order(contents, out@, diagnostics_of(contents));
    }
    out
}

proof fn lemma_lines_concat(
    a: Seq<(Seq<char>, Seq<u8>)>,
    b: Seq<(Seq<char>, Seq<u8>)>,
)
    ensures
        diagnostic_lines(a + b) == diagnostic_lines(a) + diagnostic_lines(b),
    decreases b.len(),
{
    if b.len() == 0 {
        assert(a + b =~= a);
        assert(diagnostic_lines(a) + diagnostic_lines(b) =~= diagnostic_lines(a));
    } else {
        lemma_lines_concat(a, b.drop_last());
        assert((a + b).drop_last() =~= a + b.drop_last());
        assert((a + b).last() == b.last());
        match diagnostic_line(b.last()) {
            Some(line) => {
                assert(diagnostic_lines(a) + diagnostic_lines(b) =~= (diagnostic_lines(a)
                    + diagnostic_lines(b.drop_last())).push(line));
            },
            None => {},
        }
    }
}

proof fn lemma_lines_forget_order(
    one: Seq<(Seq<char>, Seq<u8>)>,
    other: Seq<(Seq<char>, Seq<u8>)>,
)
    requires
        one.to_multiset() == other.to_multiset(),
    ensures
        diagnostic_lines(one).to_multiset() == diagnostic_lines(other).to_multiset(),
    decreases one.len(),
{
    broadcast use vstd::seq_lib::group_to_multiset_ensures;

    assert(one.to_multiset().len() == one.len());
    assert(other.to_multiset().len() == other.len());
    if one.len() > 0 {
        let entry = one.last();
        assert(one.contains(entry));
        assert(other.to_multiset().count(entry) > 0);
        assert(other.contains(entry));
        let k = choose|k: int| 0 <= k < other.len() && other[k] == entry;
        let head = other.take(k);
        let tail = other.skip(k + 1);
        assert(other =~= head + seq![entry] + tail);
        assert(one =~= one.drop_last().push(entry));
        assert(other.remove(k) =~= head + tail);
        assert(one.drop_last().to_multiset() =~= (head + tail).to_multiset()) by {
            assert(one.to_multiset() =~= one.drop_last().to_multiset().insert(entry));
            assert((head + tail).to_multiset() =~= other.to_multiset().remove(entry));
        }
        lemma_lines_forget_order(one.drop_last(), head + tail);
        let mine = diagnostic_lines(seq![entry]);
        assert(seq![entry].drop_last() =~= Seq::<(Seq<char>, Seq<u8>)>::empty());
        lemma_lines_concat(one.drop_last(), seq![entry]);
        assert(one =~= one.drop_last() + seq![entry]);
        lemma_lines_concat(head, tail);
        lemma_lines_concat(head + seq![entry], tail);
        lemma_lines_concat(head, seq![entry]);
        let a = diagnostic_lines(head);
        let b = diagnostic_lines(tail);
        lemma_multiset_commutative(diagnostic_lines(one.drop_last()), mine);
        lemma_multiset_commutative(a + mine, b);
        lemma_multiset_commutative(a, mine);
        lemma_multiset_commutative(a, b);
        assert(diagnostic_lines(one).to_multiset() =~= diagnostic_lines(other).to_multiset());
    } else {
        assert(one =~= other);
    }
}

/// The text for the headers of a map does not depend on the order in which the map hands them
/// out: a map has one such text.
pub proof fn law_diagnostics_forget_order(
    contents: Map<Seq<char>, Seq<Seq<u8>>>,
    one: Seq<char>,
    other: Seq<char>,
)
    requires
        is_diagnostic_text(contents, one),
        is_diagnostic_text(contents, other),
    ensures
        one == other,
{
    let first = choose|entries: Seq<(Seq<char>, Seq<u8>)>| #[trigger]
        is_walk(contents, entries) && one == diagnostic_text(entries);
    let second = choose|entries: Seq<(Seq<char>, Seq<u8>)>| #[trigger]
        is_walk(contents, entries) && other == diagnostic_text(entries);
    law_walks_hold_the_same_headers(contents, first, second);
    lemma_lines_forget_order(first, second);
    law_sorting_forgets_order(diagnostic_lines(first), diagnostic_lines(second));
}

proof fn lemma_entry_of_value(
    entries: Seq<(Seq<char>, Seq<u8>)>,
    name: Seq<char>,
    value: Seq<u8>,
)
    requires
        values_under(entries, name).contains(value),
    ensures
        entries.contains((name, value)),
    decreases entries.len(),
{
    let rest = entries.drop_last();
    let values = values_under(entries, name);
    let k = choose|k: int| 0 <= k < values.len() && values[k] == value;
    if entries.last() == (name, value) {
        assert(entries[entries.len() - 1] == (name, value));
    } else {
        let before = values_under(rest, name);
        assert(before[k] == value);
        assert(before.contains(value));
        lemma_entry_of_value(rest, name, value);
        let i = choose|i: int| 0 <= i < rest.len() && rest[i] == (name, value);
        assert(entries[i] == (name, value));
    }
}

proof fn lemma_line_of_entry(entries: Seq<(Seq<char>, Seq<u8>)>, i: int, line: Seq<char>)
    requires
        0 <= i < entries.len(),
        diagnostic_line(entries[i]) == Some(line),
    ensures
        diagnostic_lines(entries).contains(line),
    decreases entries.len(),
{
    let lines = diagnostic_lines(entries);
    let before = diagnostic_lines(entries.drop_last());
    if i == entries.len() - 1 {
        assert(lines[lines.len() - 1] == line);
    } else {
        assert(entries.drop_last()[i] == entries[i]);
        lemma_line_of_entry(entries.drop_last(), i, line);
        let k = choose|k: int| 0 <= k < before.len() && before[k] == line;
        assert(lines[k] == line);
    }
}

/// Every diagnostic header of a response whose value is text stands in the message for a
/// provider error, by its name and its value.
pub proof fn law_message_holds_every_diagnostic_header(
    contents: Map<Seq<char>, Seq<Seq<u8>>>,
    diagnostics: Seq<char>,
    name: Seq<char>,
    i: int,
    text: Seq<char>,
    error_type: Seq<char>,
    message: Seq<char>,
    status: u16,
)
    requires
        is_diagnostic_text(contents, diagnostics),
        is_diagnostic(name),
        contents.contains_key(name),
        0 <= i < contents[name].len(),
        header_text_of(contents[name][i]) == Some(text),
    ensures
        has_part(
            composed_message(error_type, message, status, diagnostics),
            name + "="@ + text,
        ),
{
    broadcast use vstd::seq_lib::group_to_multiset_ensures;

    let entries = choose|entries: Seq<(Seq<char>, Seq<u8>)>| #[trigger]
        is_walk(contents, entries) && diagnostics == diagnostic_text(entries);
    let line = name + "="@ + text;
    assert(values_under(entries, name) == contents[name]);
    assert(contents[name].contains(contents[name][i]));
    lemma_entry_of_value(entries, name, contents[name][i]);
    let k = choose|k: int| 0 <= k < entries.len() && entries[k] == (name, contents[name][i]);
    lemma_line_of_entry(entries, k, line);
    let lines = diagnostic_lines(entries);
    let sorted = sorted_texts(lines);
    law_sorting_keeps_texts(lines);
    assert(lines.to_multiset().count(line) > 0);
    assert(sorted.contains(line));
    let place = choose|place: int| 0 <= place < sorted.len() && sorted[place] == line;
    lemma_joined_part(sorted, ", "@, place);
    law_message_names_type_status_and_headers(error_type, message, status, diagnostics);
    lemma_part_of_part(
        composed_message(error_type, message, status, diagnostics),
        diagnostics,
        line,
    );
}

/// The texts of a switch that turn the logging of bodies on.
pub open spec fn turns_logging_on(value: Seq<char>) -> bool {
    value == "1"@ || value == "true"@ || value == "TRUE"@ || value == "yes"@
}

/// Whether bodies may go to the log, by the switch's text where it is set. Bodies hold what
/// users say and what the model answers, so the default is that they may not.
pub fn llm_body_logging_enabled(value: Option<&str>) -> (r: bool)
    ensures
        r == (value matches Some(text) && turns_logging_on(text@)),
{
    match value {
        Some(text) => str_eq(text, "1") || str_eq(text, "true") || str_eq(text, "TRUE") || str_eq(
            text,
            "yes",
        ),
        None => false,
    }
}

/// What a log line says of the bodies.
#[derive(Debug)]
pub enum LoggedBodies {
    Shown { request_body: String, response_body: String },
    Redacted { response_size_bytes: usize },
}

/// The log line for a response that is no success.
#[derive(Debug)]
pub struct ErrorLog {
    pub op: &'static str,
    pub uri: String,
    pub status: u16,
    pub response_headers: String,
    pub bodies: LoggedBodies,
}

/// What the log line says of the bodies is right for these bodies and this switch.
pub open spec fn are_logged<S: Fn(&str) -> String>(
    sanitize: S,
    request_body: JsonView,
    response: Seq<u8>,
    bodies_enabled: bool,
    bodies: LoggedBodies,
) -> bool {
    match bodies {
        LoggedBodies::Shown { request_body: request_log, response_body } => {
            &&& bodies_enabled
            &&& request_log@ == truncated_text(rendered(request_body), LOGGED_BODY_CHARS as nat)
            &&& exists|clean: Seq<char>|
                #![trigger sanitizes_to(sanitize, lossy_text(response), clean)]
                sanitizes_to(sanitize, lossy_text(response), clean) && response_body@
                    == truncated_text(clean, LOGGED_BODY_CHARS as nat)
        },
        LoggedBodies::Redacted { response_size_bytes } => {
            &&& !bodies_enabled
            &&& response_size_bytes == response.len()
        },
    }
}

/// The log line for a response that is no success: where the request went and what came back,
/// with the bodies only where `bodies_enabled` says so, the response's free of provider ids.
pub fn log_anthropic_error_response<S: Fn(&str) -> String>(
    op: &'static str,
    uri: &str,
    request_body: &Json,
    status: u16,
    headers: &http::HeaderMap<http::HeaderValue>,
    response_bytes: &[u8],
    bodies_enabled: bool,
    sanitize: &S,
) -> (r: ErrorLog)
    requires
        accepts_any_text(*sanitize),
    ensures
        r.op@ == op@,
        r.uri@ == uri@,
        r.status == status,
        is_diagnostic_text(header_contents(*headers), r.response_headers@),
        are_logged(*sanitize, request_body@, response_bytes@, bodies_enabled, r.bodies),
{
    let response_headers = format_diag_headers(headers);
    let bodies = if bodies_enabled {
        let request_text = request_body.render();
        let response_text = text_from_bytes(response_bytes);
        let given: &str = response_text.as_str();
        let clean = sanitize(given);
        proof {
            assert(sanitizes_to(*sanitize, response_text@, clean@));
        }
        LoggedBodies::Shown {
            request_body: truncate_for_log(request_text.as_str(), LOGGED_BODY_CHARS),
            response_body: truncate_for_log(clean.as_str(), LOGGED_BODY_CHARS),
        }
    } else {
        LoggedBodies::Redacted { response_size_bytes: response_bytes.len() }
    };
    ErrorLog { op, uri: uri.to_owned(), status, response_headers, bodies }
}

/// Where the switch is off, the log line holds nothing of the bodies but the size of one.
pub proof fn law_bodies_are_opt_in<S: Fn(&str) -> String>(
    sanitize: S,
    request_body: JsonView,
    response: Seq<u8>,
    bodies: LoggedBodies,
)
    requires
        are_logged(sanitize, request_body, response, false, bodies),
    ensures
        bodies matches LoggedBodies::Redacted { response_size_bytes } && response_size_bytes
            == response.len(),
{
}

/// What the log says of an outbound request's body: nothing, unless `bodies_enabled` says so.
pub fn logged_request_body(request_body: &Json, bodies_enabled: bool) -> (r: Option<String>)
    ensures
        match r {
            Some(text) => bodies_enabled && text@ == truncated_text(
                rendered(request_body@),
                LOGGED_BODY_CHARS as nat,
            ),
            None => !bodies_enabled,
        },
{
    if bodies_enabled {
        let text = request_body.render();
        Some(truncate_for_log(text.as_str(), LOGGED_BODY_CHARS))
    } else {
        None
    }
}

/// The message for a provider error is made of the provider's type, the provider's own words
/// where they say anything, the HTTP status and the diagnostic headers where there are any, with
/// a space between each two of them and nothing else.
pub proof fn law_message_is_made_of_its_parts(
    error_type: Seq<char>,
    message: Seq<char>,
    status: u16,
    diagnostics: Seq<char>,
)
    ensures
        ({
            let words = if trim_text(message).len() == 0 {
                Seq::<Seq<char>>::empty()
            } else {
                seq![trim_text(message)]
            };
            let headers = if diagnostics.len() == 0 {
                Seq::<Seq<char>>::empty()
            } else {
                seq![seq!['['] + diagnostics + seq![']']]
            };
            let parts = seq![seq!['['] + error_type + seq![']']] + words + seq![
                seq!['(', 'H', 'T', 'T', 'P', ' '] + decimal_text(status as nat) + seq![')'],
            ] + headers;
            composed_message(error_type, message, status, diagnostics) == join_texts(
                parts,
                seq![' '],
            )
        }),
{
    reveal_strlit("[");
    reveal_strlit("]");
    reveal_strlit(")");
    reveal_strlit("] ");
    reveal_strlit(" [");
    reveal_strlit("] (HTTP ");
    reveal_strlit(" (HTTP ");
    reveal_with_fuel(join_texts, 4);
    let space = seq![' '];
    let words = if trim_text(message).len() == 0 {
        Seq::<Seq<char>>::empty()
    } else {
        seq![trim_text(message)]
    };
    let headers = if diagnostics.len() == 0 {
        Seq::<Seq<char>>::empty()
    } else {
        seq![seq!['['] + diagnostics + seq![']']]
    };
    let kind = seq!['['] + error_type + seq![']'];
    let code = seq!['(', 'H', 'T', 'T', 'P', ' '] + decimal_text(status as nat) + seq![')'];
    let told = seq![kind] + words + seq![code];
    if words.len() == 0 {
        assert(told =~= seq![kind, code]);
        assert(told.drop_last() =~= seq![kind]);
        assert(join_texts(told, space) =~= told_message(error_type, message, status));
    } else {
        assert(told =~= seq![kind, words[0], code]);
        assert(told.drop_last() =~= seq![kind, words[0]]);
        assert(told.drop_last().drop_last() =~= seq![kind]);
        assert(join_texts(told, space) =~= told_message(error_type, message, status));
    }
    let parts = told + headers;
    if headers.len() == 0 {
        assert(parts =~= told);
    } else {
        assert(parts.drop_last() =~= told);
        assert(join_texts(parts, space) =~= composed_message(
            error_type,
            message,
            status,
            diagnostics,
        ));
    }
}

/// What a response comes to, by its body and its status: a body that tells of an error makes a
/// rate limit of it where the status is that of too many requests or the type says so, and an
/// error of the provider otherwise, with the provider's type and own words and the cleaned-up
/// message. Any other body is quoted, cleaned up, beside the status.
pub proof fn law_errors_tell_what_came<S: Fn(&str) -> String>(
    sanitize: S,
    clean: spec_fn(Seq<char>) -> Seq<char>,
    status: u16,
    retry_after_secs: Option<u64>,
    diagnostics: Seq<char>,
    reading: Result<JsonView, Seq<char>>,
    body: Seq<char>,
    error: ErrorView,
)
    requires
        forall|given: &str, returned: String| #[trigger]
            call_ensures(sanitize, (given,), returned) ==> returned@ == clean(given@),
        is_error_of(sanitize, status, retry_after_secs, diagnostics, reading, body, error),
    ensures
        reading matches Ok(JsonView::Object(members)) ==> ({
            members.contains_key("error"@) && members["error"@] is Object ==> ({
                let told = members["error"@];
                told.member_text("type"@) is Some && told.member_text("message"@) is Some ==> ({
                    let error_type = told.member_text("type"@)->0;
                    let message = told.member_text("message"@)->0;
                    if status == 429 || error_type == "rate_limit_error"@ {
                        error == (ErrorView::RateLimited { retry_after_secs })
                    } else {
                        error == (ErrorView::ProviderError {
                            code: error_type,
                            message: clean(
                                composed_message(error_type, message, status, diagnostics),
                            ),
                            raw_detail: Some(message),
                        })
                    }
                })
            })
        }),
        reading is Err || (reading matches Ok(JsonView::Object(members)) && !members.contains_key(
            "error"@,
        )) ==> error == (ErrorView::InvalidResponse {
            detail: "non-SSE response (HTTP "@ + decimal_text(status as nat)
                + ") with unparseable body: "@ + clean(
                if body.len() <= 200 {
                    body
                } else {
                    body.take(200)
                },
            ),
        }),
{
    match told_error(reading) {
        Some((error_type, message)) => {
            if !is_rate_limit(error_type, status) {
                let composed = composed_message(error_type, message, status, diagnostics);
                let shown = choose|shown: Seq<char>| #[trigger]
                    sanitizes_to(sanitize, composed, shown) && error == (ErrorView::ProviderError {
                        code: error_type,
                        message: shown,
                        raw_detail: Some(message),
                    });
                law_sanitized_text_is_what_the_function_returns(sanitize, clean, composed, shown);
            }
        },
        None => {
            let head = first_chars(body, SNIPPET_CHARS as nat);
            let snippet = choose|snippet: Seq<char>| #[trigger]
                sanitizes_to(sanitize, head, snippet) && error == (ErrorView::InvalidResponse {
                    detail: unparseable_detail(status, snippet),
                });
            law_sanitized_text_is_what_the_function_returns(sanitize, clean, head, snippet);
        },
    }
}

/// The wait that a response asks for is the number that its first `retry-after` header writes
/// out, and there is none without such a header.
pub proof fn law_wait_is_what_the_header_says(
    contents: Map<Seq<char>, Seq<Seq<u8>>>,
    n: u64,
)
    ensures
        !contents.contains_key("retry-after"@) ==> retry_after_of(contents) is None,
        contents.contains_key("retry-after"@) && header_text_of(contents["retry-after"@][0])
            == Some(decimal_text(n as nat)) ==> retry_after_of(contents) == Some(n),
        contents.contains_key("retry-after"@) && header_text_of(
            contents["retry-after"@][0],
        ) is None ==> retry_after_of(contents) is None,
{
    law_written_numbers_read_back(n as nat);
}

/// The diagnostic headers are the request's id, the wait, the type of the content, and those
/// whose names begin with `anthropic-`; of each the name and the value are told.
pub proof fn law_what_is_diagnostic(name: Seq<char>, value: Seq<u8>)
    ensures
        ({
            let told = name == "request-id"@ || name == "retry-after"@ || name == "content-type"@
                || "anthropic-"@.is_prefix_of(name);
            &&& told ==> diagnostic_line((name, value)) == match header_text_of(value) {
                Some(text) => Some(name + "="@ + text),
                None => None,
            }
            &&& !told ==> diagnostic_line((name, value)) is None
        }),
{
    assert("anthropic-"@.is_prefix_of(name) == has_prefix(name, "anthropic-"@));
}

/// Lists of headers one behind the other are told as the lines of the first and then those of
/// the second; one header is told by its own line, or not at all.
pub proof fn law_lines_follow_the_headers(
    a: Seq<(Seq<char>, Seq<u8>)>,
    b: Seq<(Seq<char>, Seq<u8>)>,
)
    ensures
        diagnostic_lines(a + b) == diagnostic_lines(a) + diagnostic_lines(b),
        b.len() == 1 ==> diagnostic_lines(b) == match diagnostic_line(b[0]) {
            Some(line) => seq![line],
            None => Seq::empty(),
        },
{
    lemma_lines_concat(a, b);
    reveal_with_fuel(diagnostic_lines, 2);
    if b.len() == 1 {
        assert(b.drop_last() =~= Seq::empty());
        assert(diagnostic_lines(b) =~= match diagnostic_line(b[0]) {
            Some(line) => seq![line],
            None => Seq::empty(),
        });
    }
}

/// The text for the headers of a map is its lines, each once for each time that the header
/// stands in the map, in order, with a comma and a space between each two.
pub proof fn law_diagnostic_text_joins_sorted_lines(
    contents: Map<Seq<char>, Seq<Seq<u8>>>,
    entries: Seq<(Seq<char>, Seq<u8>)>,
    out: Seq<char>,
) -> (lines: Seq<Seq<char>>)
    requires
        is_walk(contents, entries),
        is_diagnostic_text(contents, out),
    ensures
        out == join_texts(lines, ", "@),
        lines.to_multiset() == diagnostic_lines(entries).to_multiset(),
        forall|i: int, j: int| 0 <= i < j < lines.len() ==> #[trigger] text_le(lines[i], lines[j]),
{
    let other = diagnostic_text(entries);
    assert(is_diagnostic_text(contents, other));
    law_diagnostics_forget_order(contents, out, other);
    let lines = sorted_texts(diagnostic_lines(entries));
    law_sorting_keeps_texts(diagnostic_lines(entries));
    let leq = |a: Seq<char>, b: Seq<char>| text_le(a, b);
    assert forall|i: int, j: int| 0 <= i < j < lines.len() implies #[trigger] text_le(
        lines[i],
        lines[j],
    ) by {
        assert(leq(lines[i], lines[j]));
    }
    lines
}

/// What the log shows of bodies is their beginning, of no more than four thousand characters:
/// the request's as it was sent, and the response's cleaned up.
pub proof fn law_logged_bodies_are_the_bodies<S: Fn(&str) -> String>(
    sanitize: S,
    clean: spec_fn(Seq<char>) -> Seq<char>,
    request_body: JsonView,
    response: Seq<u8>,
    bodies_enabled: bool,
    bodies: LoggedBodies,
)
    requires
        forall|given: &str, returned: String| #[trigger]
            call_ensures(sanitize, (given,), returned) ==> returned@ == clean(given@),
        are_logged(sanitize, request_body, response, bodies_enabled, bodies),
    ensures
        bodies is Shown <==> bodies_enabled,
        bodies matches LoggedBodies::Shown { request_body: sent, response_body } ==> {
            let request = rendered(request_body);
            let came = clean(lossy_text(response));
            &&& request.len() <= 4000 ==> sent@ == request
            &&& request.len() > 4000 ==> sent@ == request.take(4000) + "…[truncated]"@
            &&& came.len() <= 4000 ==> response_body@ == came
            &&& came.len() > 4000 ==> response_body@ == came.take(4000) + "…[truncated]"@
        },
{
    if let LoggedBodies::Shown { request_body: sent, response_body } = bodies {
        let text = lossy_text(response);
        let cleaned = choose|cleaned: Seq<char>| #[trigger]
            sanitizes_to(sanitize, text, cleaned) && response_body@ == truncated_text(
                cleaned,
                LOGGED_BODY_CHARS as nat,
            );
        law_sanitized_text_is_what_the_function_returns(sanitize, clean, text, cleaned);
    }
}

/// A status tells of success where it is one of the two hundreds.
pub proof fn law_success_is_the_two_hundreds(status: u16)
    ensures
        is_success(status) <==> status / 100 == 2,
{
}

/// Bodies are logged where the switch says `1`, `true`, `TRUE` or `yes`, and for no other text.
pub proof fn law_what_turns_logging_on(value: Seq<char>)
    ensures
        turns_logging_on(value) <==> seq!["1"@, "true"@, "TRUE"@, "yes"@].contains(value),
{
    let texts = seq!["1"@, "true"@, "TRUE"@, "yes"@];
    assert(texts[0] == "1"@ && texts[1] == "true"@ && texts[2] == "TRUE"@ && texts[3] == "yes"@);
}

}
