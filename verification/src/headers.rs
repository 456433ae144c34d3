//! Response headers, as `http::HeaderMap` holds them.
//!
//! The functions at the start of this file are the whole of what is taken from the `http` crate
//! for them.

use vstd::prelude::*;

verus! {

/// A map from header names to values.
#[verifier::external_type_specification]
#[verifier::external_body]
#[verifier::reject_recursive_types(T)]
pub struct ExHeaderMap<T>(http::HeaderMap<T>);

/// The value of one header.
#[verifier::external_type_specification]
#[verifier::external_body]
pub struct ExHeaderValue(http::HeaderValue);

/// What a header map holds: under each name, which is in lower case, its values in the order in
/// which they were added.
pub uninterp spec fn header_contents(headers: http::HeaderMap<http::HeaderValue>) -> Map<
    Seq<char>,
    Seq<Seq<u8>>,
>;

/// The bytes that a header value holds.
pub uninterp spec fn header_bytes(value: http::HeaderValue) -> Seq<u8>;

/// No character of the name is an upper-case letter of ASCII.
pub open spec fn is_lower_case(name: Seq<char>) -> bool {
    forall|i: int| 0 <= i < name.len() ==> !('A' as u32 <= (#[trigger] name[i]) as u32 <= 'Z' as u32)
}

/// A byte that a header's text can be made of: visible ASCII, a space or a tab.
pub open spec fn is_text_byte(b: u8) -> bool {
    32 <= b < 127 || b == 9
}

/// The text of a header value, where it has one.
pub open spec fn header_text_of(bytes: Seq<u8>) -> Option<Seq<char>> {
    if forall|i: int| 0 <= i < bytes.len() ==> is_text_byte(#[trigger] bytes[i]) {
        Some(Seq::new(bytes.len(), |i: int| bytes[i] as char))
    } else {
        None
    }
}

/// The values under one name, in the order in which a list of headers gives them.
pub open spec fn values_under(entries: Seq<(Seq<char>, Seq<u8>)>, name: Seq<char>) -> Seq<Seq<u8>>
    decreases entries.len(),
{
    if entries.len() == 0 {
        Seq::empty()
    } else if entries.last().0 == name {
        values_under(entries.drop_last(), name).push(entries.last().1)
    } else {
        values_under(entries.drop_last(), name)
    }
}

/// The list gives each name as often as it has values, the values of one name in their order;
/// it leaves open how the names follow one another.
pub open spec fn is_walk(
    contents: Map<Seq<char>, Seq<Seq<u8>>>,
    entries: Seq<(Seq<char>, Seq<u8>)>,
) -> bool {
    forall|name: Seq<char>| #[trigger]
        values_under(entries, name) == if contents.contains_key(name) {
            contents[name]
        } else {
            Seq::empty()
        }
}

/// The names and values that a list of headers holds.
pub open spec fn entries_view(entries: Seq<(String, http::HeaderValue)>) -> Seq<
    (Seq<char>, Seq<u8>),
> {
    Seq::new(entries.len(), |i: int| (entries[i].0@, header_bytes(entries[i].1)))
}

/// `http::HeaderMap::get` with a name in lower case: the first value under that name. Under a
/// name that the map holds there is at least one.
#[verifier::external_body]
pub(crate) fn header_value<'a>(
    headers: &'a http::HeaderMap<http::HeaderValue>,
    name: &str,
) -> (r: Option<&'a http::HeaderValue>)
    requires
        is_lower_case(name@),
    ensures
        match r {
            Some(value) => {
                &&& header_contents(*headers).contains_key(name@)
                &&& header_contents(*headers)[name@].len() > 0
                &&& header_bytes(*value) == header_contents(*headers)[name@][0]
            },
            None => !header_contents(*headers).contains_key(name@),
        },
{
    headers.get(name)
}

/// `http::HeaderMap::iter`: every name once for each of its values. In which order the names
/// come is left unsaid.
#[verifier::external_body]
pub(crate) fn header_entries(headers: &http::HeaderMap<http::HeaderValue>) -> (r: Vec<
    (String, http::HeaderValue),
>)
    ensures
        is_walk(header_contents(*headers), entries_view(r@)),
{
    headers.iter().map(|(name, value)| (name.as_str().to_owned(), value.clone())).collect()
}

/// `http::HeaderValue::to_str`: the text of a value that holds nothing but visible ASCII, spaces
/// and tabs.
#[verifier::external_body]
pub(crate) fn header_text(value: &http::HeaderValue) -> (r: Option<&str>)
    ensures
        match r {
            Some(text) => header_text_of(header_bytes(*value)) == Some(text@),
            None => header_text_of(header_bytes(*value)) is None,
        },
{
    value.to_str().ok()
}

proof fn lemma_values_count(entries: Seq<(Seq<char>, Seq<u8>)>, name: Seq<char>, value: Seq<u8>)
    ensures
        entries.to_multiset().count((name, value)) == values_under(
            entries,
            name,
        ).to_multiset().count(value),
    decreases entries.len(),
{
    broadcast use vstd::seq_lib::group_to_multiset_ensures;

    if entries.len() > 0 {
        let rest = entries.drop_last();
        lemma_values_count(rest, name, value);
        assert(entries =~= rest.push(entries.last()));
    }
}

/// Two lists of the headers of one map hold the same headers equally often.
pub proof fn law_walks_hold_the_same_headers(
    contents: Map<Seq<char>, Seq<Seq<u8>>>,
    one: Seq<(Seq<char>, Seq<u8>)>,
    other: Seq<(Seq<char>, Seq<u8>)>,
)
    requires
        is_walk(contents, one),
        is_walk(contents, other),
    ensures
        one.to_multiset() == other.to_multiset(),
{
    assert forall|entry: (Seq<char>, Seq<u8>)| #[trigger]
        one.to_multiset().count(entry) == other.to_multiset().count(entry) by {
        lemma_values_count(one, entry.0, entry.1);
        lemma_values_count(other, entry.0, entry.1);
        assert(values_under(one, entry.0) == values_under(other, entry.0));
    }
    assert(one.to_multiset() =~= other.to_multiset());
}

/// A value that holds the bytes of a visible text has that text, and one with any other byte has
/// none.
pub proof fn law_header_text_is_read_byte_by_byte(bytes: Seq<u8>, text: Seq<char>)
    requires
        bytes.len() == text.len(),
        forall|i: int| 0 <= i < bytes.len() ==> #[trigger] bytes[i] as char == text[i],
    ensures
        (forall|i: int|
            0 <= i < bytes.len() ==> (32 <= #[trigger] bytes[i] <= 126 || bytes[i] == 9)) ==> header_text_of(
            bytes,
        ) == Some(text),
        (exists|i: int|
            0 <= i < bytes.len() && !(32 <= #[trigger] bytes[i] <= 126 || bytes[i] == 9))
            ==> header_text_of(bytes) is None,
{
    if forall|i: int| 0 <= i < bytes.len() ==> (32 <= #[trigger] bytes[i] <= 126 || bytes[i] == 9) {
        assert forall|i: int| 0 <= i < bytes.len() implies is_text_byte(#[trigger] bytes[i]) by {}
        assert(Seq::new(bytes.len(), |i: int| bytes[i] as char) =~= text);
    }
}

/// Lists of headers one behind the other give under each name the values of the first and then
/// those of the second.
pub proof fn law_values_follow_the_list(
    a: Seq<(Seq<char>, Seq<u8>)>,
    b: Seq<(Seq<char>, Seq<u8>)>,
    name: Seq<char>,
)
    ensures
        values_under(a + b, name) == values_under(a, name) + values_under(b, name),
        b.len() == 1 ==> values_under(b, name) == if b[0].0 == name {
            seq![b[0].1]
        } else {
            Seq::empty()
        },
    decreases b.len(),
{
    if b.len() == 0 {
        assert(a + b =~= a);
        assert(values_under(a, name) + values_under(b, name) =~= values_under(a, name));
    } else {
        law_values_follow_the_list(a, b.drop_last(), name);
        assert((a + b).drop_last() =~= a + b.drop_last());
        assert(values_under(a + b, name) =~= values_under(a, name) + values_under(b, name));
        if b.len() == 1 {
            assert(b.drop_last() =~= Seq::empty());
            assert(values_under(b, name) =~= if b[0].0 == name {
                seq![b[0].1]
            } else {
                Seq::empty()
            });
        }
    }
}

/// An entry is viewed where it stands, as its name and the bytes of its value.
pub proof fn law_entries_stand_where_they_do(entries: Seq<(String, http::HeaderValue)>, i: int)
    ensures
        entries_view(entries).len() == entries.len(),
        0 <= i < entries.len() ==> entries_view(entries)[i].0 == entries[i].0@ && entries_view(
            entries,
        )[i].1 == header_bytes(entries[i].1),
{
}

}
