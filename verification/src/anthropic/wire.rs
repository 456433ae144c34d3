//! Reading the fields of wire structures out of JSON values.
//!
//! A structure is an object that holds its fields under their names, or an array that holds
//! them in their order. Members of an object that are not fields are ignored; an array that is
//! longer than the structure is refused.

use vstd::prelude::*;

use crate::json::{lemma_items_view, Json, JsonView, NumberView};

verus! {

/// The value can stand for a structure of `fields` fields.
pub open spec fn is_structure(v: JsonView, fields: nat) -> bool {
    match v {
        JsonView::Object(_) => true,
        JsonView::Array(items) => items.len() <= fields,
        _ => false,
    }
}

/// The field with this name and place, where it is there.
pub open spec fn field_of(v: JsonView, name: Seq<char>, place: nat) -> Option<JsonView> {
    match v {
        JsonView::Object(m) => if m.contains_key(name) {
            Some(m[name])
        } else {
            None
        },
        JsonView::Array(items) => if place < items.len() {
            Some(items[place as int])
        } else {
            None
        },
        _ => None,
    }
}

/// A field that has to be there and to be a text.
pub open spec fn required_text(v: JsonView, name: Seq<char>, place: nat) -> Option<Seq<char>> {
    match field_of(v, name, place) {
        Some(JsonView::Text(s)) => Some(s),
        _ => None,
    }
}

/// A field that is a text where it is there, and empty where it is not.
pub open spec fn optional_text(v: JsonView, name: Seq<char>, place: nat) -> Option<Seq<char>> {
    match field_of(v, name, place) {
        Some(JsonView::Text(s)) => Some(s),
        Some(_) => None,
        None => Some(Seq::empty()),
    }
}

/// A field that is a signed integer of 64 bits where it is there, and zero where it is not.
pub open spec fn optional_count(v: JsonView, name: Seq<char>, place: nat) -> Option<i64> {
    match field_of(v, name, place) {
        Some(JsonView::Number(NumberView::Int(i))) => if i64::MIN <= i <= i64::MAX {
            Some(i as i64)
        } else {
            None
        },
        Some(_) => None,
        None => Some(0i64),
    }
}

/// A field that has to be there and to be an unsigned integer of 32 bits.
pub open spec fn required_index(v: JsonView, name: Seq<char>, place: nat) -> Option<u32> {
    match field_of(v, name, place) {
        Some(JsonView::Number(NumberView::Int(i))) => if 0 <= i <= u32::MAX {
            Some(i as u32)
        } else {
            None
        },
        _ => None,
    }
}

/// The view of an optional text.
pub open spec fn text_view(s: Option<String>) -> Option<Seq<char>> {
    match s {
        Some(s) => Some(s@),
        None => None,
    }
}

/// A member of an object that is no field changes no field.
pub proof fn law_other_members_are_ignored(
    members: Map<Seq<char>, JsonView>,
    key: Seq<char>,
    value: JsonView,
    name: Seq<char>,
    place: nat,
    fields: nat,
)
    requires
        key != name,
    ensures
        ({
            let with = JsonView::Object(members.insert(key, value));
            let without = JsonView::Object(members);
            &&& is_structure(with, fields) == is_structure(without, fields)
            &&& field_of(with, name, place) == field_of(without, name, place)
        }),
{
}

/// Whether the value can stand for a structure of `fields` fields.
pub fn check_structure(v: &Json, fields: usize) -> (r: bool)
    ensures
        r == is_structure(v@, fields as nat),
{
    match v {
        Json::Object(_) => true,
        Json::Array(items) => {
            proof {
                lemma_items_view(items@);
            }
            items.len() <= fields
        },
        _ => false,
    }
}

/// The field with this name and place, where it is there.
pub fn read_field<'a>(v: &'a Json, name: &str, place: usize) -> (r: Option<&'a Json>)
    ensures
        match r {
            Some(j) => field_of(v@, name@, place as nat) == Some(j@),
            None => field_of(v@, name@, place as nat) is None,
        },
{
    match v {
        Json::Object(_) => v.get(name),
        Json::Array(items) => {
            proof {
                lemma_items_view(items@);
            }
            if place < items.len() {
                Some(&items[place])
            } else {
                None
            }
        },
        _ => None,
    }
}

/// Reads a field that has to be there and to be a text.
pub fn read_required_text(v: &Json, name: &str, place: usize) -> (r: Option<String>)
    ensures
        text_view(r) == required_text(v@, name@, place as nat),
{
    match read_field(v, name, place) {
        Some(Json::Text(s)) => Some(s.clone()),
        _ => None,
    }
}

/// Reads a field that is a text where it is there, and empty where it is not.
pub fn read_optional_text(v: &Json, name: &str, place: usize) -> (r: Option<String>)
    ensures
        text_view(r) == optional_text(v@, name@, place as nat),
{
    match read_field(v, name, place) {
        Some(Json::Text(s)) => Some(s.clone()),
        Some(_) => None,
        None => Some(String::new()),
    }
}

/// Reads a field that is a signed integer where it is there, and zero where it is not.
pub fn read_optional_count(v: &Json, name: &str, place: usize) -> (r: Option<i64>)
    ensures
        r == optional_count(v@, name@, place as nat),
{
    match read_field(v, name, place) {
        Some(j) => match j.as_int() {
            Some(i) => if i64::MIN as i128 <= i && i <= i64::MAX as i128 {
                Some(i as i64)
            } else {
                None
            },
            None => None,
        },
        None => Some(0),
    }
}

/// Reads a field that has to be there and to be an unsigned integer of 32 bits.
pub fn read_required_index(v: &Json, name: &str, place: usize) -> (r: Option<u32>)
    ensures
        r == required_index(v@, name@, place as nat),
{
    match read_field(v, name, place) {
        Some(j) => match j.as_int() {
            Some(i) => if 0 <= i && i <= u32::MAX as i128 {
                Some(i as u32)
            } else {
                None
            },
            None => None,
        },
        None => None,
    }
}

/// A text that stands in the field is read as it is, whether it has to be there or not, from an
/// object by its name and from an array by its place.
pub proof fn law_texts_are_read_as_they_are(
    v: JsonView,
    name: Seq<char>,
    place: nat,
    text: Seq<char>,
)
    requires
        match v {
            JsonView::Object(m) => m.contains_key(name) && m[name] == JsonView::Text(text),
            JsonView::Array(items) => place < items.len() && items[place as int] == JsonView::Text(
                text,
            ),
            _ => false,
        },
    ensures
        required_text(v, name, place) == Some(text),
        optional_text(v, name, place) == Some(text),
{
}

/// A count that stands in the field is read as it is where 64 bits can hold it, an index where it
/// is not negative and 32 bits can, and neither otherwise.
pub proof fn law_counts_are_read_as_they_are(v: JsonView, name: Seq<char>, place: nat, n: int)
    requires
        match v {
            JsonView::Object(m) => m.contains_key(name) && m[name] == JsonView::Number(
                NumberView::Int(n),
            ),
            JsonView::Array(items) => place < items.len() && items[place as int]
                == JsonView::Number(NumberView::Int(n)),
            _ => false,
        },
    ensures
        match optional_count(v, name, place) {
            Some(count) => count == n,
            None => n < i64::MIN || n > i64::MAX,
        },
        match required_index(v, name, place) {
            Some(index) => index == n,
            None => n < 0 || n > u32::MAX,
        },
{
}

/// Where a field is missing, a text is empty and a count zero if they may be left out, and
/// nothing is read if they may not.
pub proof fn law_missing_fields_have_defaults(v: JsonView, name: Seq<char>, place: nat)
    requires
        match v {
            JsonView::Object(m) => !m.contains_key(name),
            JsonView::Array(items) => place >= items.len(),
            _ => false,
        },
    ensures
        optional_text(v, name, place) == Some(Seq::<char>::empty()),
        optional_count(v, name, place) == Some(0i64),
        required_text(v, name, place) is None,
        required_index(v, name, place) is None,
{
}

/// A field that holds a value of another type is read as nothing.
pub proof fn law_other_types_are_refused(v: JsonView, name: Seq<char>, place: nat, held: JsonView)
    requires
        match v {
            JsonView::Object(m) => m.contains_key(name) && m[name] == held,
            JsonView::Array(items) => place < items.len() && items[place as int] == held,
            _ => false,
        },
    ensures
        !(held is Text) ==> required_text(v, name, place) is None && optional_text(
            v,
            name,
            place,
        ) is None,
        !(held matches JsonView::Number(NumberView::Int(_))) ==> optional_count(
            v,
            name,
            place,
        ) is None && required_index(v, name, place) is None,
{
}

/// Objects are structures, arrays are where they are not too long, and nothing else is.
pub proof fn law_what_is_a_structure(v: JsonView, fields: nat)
    ensures
        is_structure(v, fields) <==> (v is Object || (v matches JsonView::Array(items)
            && items.len() <= fields)),
{
}

/// An optional text is its text.
pub proof fn law_optional_texts_say_what_they_hold(s: Option<String>)
    ensures
        s matches Some(text) ==> text_view(s) == Some(text@),
        s is None ==> text_view(s) is None,
{
}

}
