//! JSON values that the library reads and builds itself, and their text form.
//!
//! A [`Json`] holds plain values only. Turning text into one, and one into text, is the work
//! of `serde_json`; the functions at the end of this file are the whole of what is taken from
//! that crate.

use vstd::prelude::*;
use vstd::utf8::encode_utf8;

use crate::text::str_eq;

verus! {

/// A JSON value.
#[derive(Debug)]
pub enum Json {
    Null,
    Bool(bool),
    Number(serde_json::Number),
    Text(String),
    Array(Vec<Json>),
    /// Members in the order in which they were first inserted. Where a key stands twice, the
    /// later member counts.
    Object(Vec<(String, Json)>),
}

/// What a JSON value means: an object is a map from keys to values.
pub enum JsonView {
    Null,
    Bool(bool),
    Number(NumberView),
    Text(Seq<char>),
    Array(Seq<JsonView>),
    Object(Map<Seq<char>, JsonView>),
}

/// What a JSON number is: an integer, or a double given by the bits of its IEEE 754 form.
pub enum NumberView {
    Int(int),
    Float(u64),
}

pub open spec fn json_view(j: Json) -> JsonView
    decreases j,
{
    match j {
        Json::Null => JsonView::Null,
        Json::Bool(b) => JsonView::Bool(b),
        Json::Number(n) => JsonView::Number(number_contents(n)),
        Json::Text(s) => JsonView::Text(s@),
        Json::Array(items) => JsonView::Array(items_view(items@)),
        Json::Object(members) => JsonView::Object(members_view(members@)),
    }
}

/// The items of an array, each by what it means.
pub open spec fn items_view(items: Seq<Json>) -> Seq<JsonView>
    decreases items,
{
    if items.len() == 0 {
        Seq::empty()
    } else {
        items_view(items.drop_last()).push(json_view(items.last()))
    }
}

/// The map that a sequence of members stands for.
pub open spec fn members_view(members: Seq<(String, Json)>) -> Map<Seq<char>, JsonView>
    decreases members,
{
    if members.len() == 0 {
        Map::empty()
    } else {
        members_view(members.drop_last()).insert(members.last().0@, json_view(members.last().1))
    }
}

impl View for Json {
    type V = JsonView;

    open spec fn view(&self) -> JsonView {
        json_view(*self)
    }
}

impl JsonView {
    /// The object without members.
    pub open spec fn empty_object() -> JsonView {
        JsonView::Object(Map::empty())
    }

    /// The member of an object under `key`.
    pub open spec fn member(self, key: Seq<char>) -> Option<JsonView> {
        match self {
            JsonView::Object(m) => if m.contains_key(key) {
                Some(m[key])
            } else {
                None
            },
            _ => None,
        }
    }

    /// The text of the member under `key`, where there is such a member and it is a text.
    pub open spec fn member_text(self, key: Seq<char>) -> Option<Seq<char>> {
        match self.member(key) {
            Some(JsonView::Text(s)) => Some(s),
            _ => None,
        }
    }
}

proof fn lemma_items_view_index(items: Seq<Json>)
    ensures
        items_view(items).len() == items.len(),
        forall|i: int| 0 <= i < items.len() ==> #[trigger] items_view(items)[i] == json_view(items[i]),
    decreases items.len(),
{
    if items.len() > 0 {
        lemma_items_view_index(items.drop_last());
        assert forall|i: int| 0 <= i < items.len() implies #[trigger] items_view(items)[i]
            == json_view(items[i]) by {
            if i < items.len() - 1 {
                assert(items.drop_last()[i] == items[i]);
            }
        }
    }
}

/// The items of an array are what its elements mean, one by one.
pub proof fn lemma_items_view(items: Seq<Json>)
    ensures
        items_view(items) == Seq::new(items.len(), |i: int| json_view(items[i])),
{
    lemma_items_view_index(items);
    assert(items_view(items) =~= Seq::new(items.len(), |i: int| json_view(items[i])));
}

/// Members after the last one under `key` do not change what stands under it.
proof fn lemma_members_last(members: Seq<(String, Json)>, key: Seq<char>, i: int)
    requires
        0 <= i < members.len(),
        members[i].0@ == key,
        forall|j: int| i < j < members.len() ==> (#[trigger] members[j]).0@ != key,
    ensures
        members_view(members).contains_key(key),
        members_view(members)[key] == json_view(members[i].1),
    decreases members.len(),
{
    if i < members.len() - 1 {
        assert(members.drop_last()[i] == members[i]);
        assert forall|j: int| i < j < members.drop_last().len() implies (
        #[trigger] members.drop_last()[j]).0@ != key by {
            assert(members[j].0@ != key);
        }
        lemma_members_last(members.drop_last(), key, i);
    }
}

proof fn lemma_members_absent(members: Seq<(String, Json)>, key: Seq<char>)
    requires
        forall|j: int| 0 <= j < members.len() ==> (#[trigger] members[j]).0@ != key,
    ensures
        !members_view(members).contains_key(key),
    decreases members.len(),
{
    if members.len() > 0 {
        assert forall|j: int| 0 <= j < members.drop_last().len() implies (
        #[trigger] members.drop_last()[j]).0@ != key by {
            assert(members[j].0@ != key);
        }
        lemma_members_absent(members.drop_last(), key);
    }
}

proof fn lemma_members_replace(members: Seq<(String, Json)>, i: int, member: (String, Json))
    requires
        0 <= i < members.len(),
        members[i].0@ == member.0@,
        forall|j: int| i < j < members.len() ==> (#[trigger] members[j]).0@ != member.0@,
    ensures
        members_view(members.update(i, member)) == members_view(members).insert(
            member.0@,
            json_view(member.1),
        ),
    decreases members.len(),
{
    let updated = members.update(i, member);
    if i == members.len() - 1 {
        assert(updated.drop_last() =~= members.drop_last());
        assert(members_view(updated) =~= members_view(members).insert(
            member.0@,
            json_view(member.1),
        ));
    } else {
        assert(updated.drop_last() =~= members.drop_last().update(i, member));
        assert forall|j: int| i < j < members.drop_last().len() implies (
        #[trigger] members.drop_last()[j]).0@ != member.0@ by {
            assert(members[j].0@ != member.0@);
        }
        lemma_members_replace(members.drop_last(), i, member);
        assert(members.last().0@ != member.0@);
        assert(members_view(updated) =~= members_view(members).insert(
            member.0@,
            json_view(member.1),
        ));
    }
}

/// The place of the last member under `key`.
fn find_member(members: &Vec<(String, Json)>, key: &str) -> (r: Option<usize>)
    ensures
        match r {
            Some(i) => {
                &&& i < members@.len()
                &&& members@[i as int].0@ == key@
                &&& forall|j: int| i < j < members@.len() ==> (#[trigger] members@[j]).0@ != key@
                &&& members_view(members@).contains_key(key@)
                &&& members_view(members@)[key@] == json_view(members@[i as int].1)
            },
            None => {
                &&& !members_view(members@).contains_key(key@)
                &&& forall|j: int| 0 <= j < members@.len() ==> (#[trigger] members@[j]).0@ != key@
            },
        },
{
    let mut i: usize = members.len();
    while i > 0
        invariant
            i <= members@.len(),
            forall|j: int| i <= j < members@.len() ==> (#[trigger] members@[j]).0@ != key@,
        decreases i,
    {
        i = i - 1;
        if str_eq(members[i].0.as_str(), key) {
            proof {
                lemma_members_last(members@, key@, i as int);
            }
            return Some(i);
        }
    }
    proof {
        lemma_members_absent(members@, key@);
    }
    None
}

/// Puts `value` under `key`, in place of what stood there.
pub fn set_member(members: &mut Vec<(String, Json)>, key: &str, value: Json)
    ensures
        members_view(final(members)@) == members_view(old(members)@).insert(key@, value@),
{
    match find_member(members, key) {
        Some(i) => {
            let ghost before = members@;
            let member = (key.to_owned(), value);
            let ghost stored = member;
            members.set(i, member);
            proof {
                lemma_members_replace(before, i as int, stored);
            }
        },
        None => {
            let ghost before = members@;
            members.push((key.to_owned(), value));
            proof {
                assert(members@.drop_last() =~= before);
            }
        },
    }
}

impl Json {
    /// The object without members.
    pub fn object() -> (r: Json)
        ensures
            r@ == JsonView::empty_object(),
    {
        Json::Object(Vec::new())
    }

    /// A text.
    pub fn text(s: &str) -> (r: Json)
        ensures
            r@ == JsonView::Text(s@),
    {
        Json::Text(s.to_owned())
    }

    /// Puts `value` under `key` in an object; leaves any other value as it is.
    pub fn set(&mut self, key: &str, value: Json)
        ensures
            match old(self)@ {
                JsonView::Object(m) => final(self)@ == JsonView::Object(m.insert(key@, value@)),
                _ => final(self)@ == old(self)@,
            },
    {
        match self {
            Json::Object(members) => {
                set_member(members, key, value);
            },
            _ => {},
        }
    }

    /// The member of an object under `key`.
    pub fn get(&self, key: &str) -> (r: Option<&Json>)
        ensures
            match r {
                Some(j) => self@.member(key@) == Some(j@),
                None => self@.member(key@) is None,
            },
    {
        match self {
            Json::Object(members) => match find_member(members, key) {
                Some(i) => Some(&members[i].1),
                None => None,
            },
            _ => None,
        }
    }

    /// The text, where the value is one.
    pub fn as_str(&self) -> (r: Option<&str>)
        ensures
            match r {
                Some(s) => self@ == JsonView::Text(s@),
                None => !(self@ is Text),
            },
    {
        match self {
            Json::Text(s) => Some(s.as_str()),
            _ => None,
        }
    }

    /// The items, where the value is an array.
    pub fn as_array(&self) -> (r: Option<&Vec<Json>>)
        ensures
            match r {
                Some(items) => self@ == JsonView::Array(items_view(items@)),
                None => !(self@ is Array),
            },
    {
        match self {
            Json::Array(items) => Some(items),
            _ => None,
        }
    }

    /// The text of the member under `key`, where there is such a member and it is a text.
    pub fn get_str(&self, key: &str) -> (r: Option<&str>)
        ensures
            match r {
                Some(s) => self@.member_text(key@) == Some(s@),
                None => self@.member_text(key@) is None,
            },
    {
        match self.get(key) {
            Some(j) => j.as_str(),
            None => None,
        }
    }
}

impl Clone for Json {
    fn clone(&self) -> (r: Json)
        ensures
            r@ == self@,
        decreases self,
    {
        match self {
            Json::Null => Json::Null,
            Json::Bool(b) => Json::Bool(*b),
            Json::Number(n) => Json::Number(n.clone()),
            Json::Text(s) => Json::Text(s.clone()),
            Json::Array(items) => Json::Array(clone_items(items)),
            Json::Object(members) => Json::Object(clone_members(members)),
        }
    }
}

/// A copy of each member, in order.
fn clone_members(members: &Vec<(String, Json)>) -> (r: Vec<(String, Json)>)
    ensures
        members_view(r@) == members_view(members@),
    decreases members,
{
    let mut out: Vec<(String, Json)> = Vec::new();
    let mut i: usize = 0;
    while i < members.len()
        invariant
            i <= members@.len(),
            members_view(out@) == members_view(members@.take(i as int)),
        decreases members@.len() - i,
    {
        let ghost before = out@;
        proof {
            assert(decreases_to!(members => members@[i as int]));
            assert(decreases_to!(members@[i as int] => members@[i as int].1));
        }
        out.push((members[i].0.clone(), members[i].1.clone()));
        proof {
            assert(out@.drop_last() =~= before);
            assert(members@.take(i + 1).drop_last() =~= members@.take(i as int));
        }
        i = i + 1;
    }
    proof {
        assert(members@.take(i as int) =~= members@);
    }
    out
}

/// A copy of each item, in order.
pub fn clone_items(items: &Vec<Json>) -> (r: Vec<Json>)
    ensures
        items_view(r@) == items_view(items@),
    decreases items,
{
    let mut out: Vec<Json> = Vec::new();
    let mut i: usize = 0;
    while i < items.len()
        invariant
            i <= items@.len(),
            items_view(out@) == items_view(items@.take(i as int)),
        decreases items@.len() - i,
    {
        let ghost before = out@;
        out.push(items[i].clone());
        proof {
            assert(out@.drop_last() =~= before);
            assert(items@.take(i + 1).drop_last() =~= items@.take(i as int));
        }
        i = i + 1;
    }
    proof {
        assert(items@.take(i as int) =~= items@);
    }
    out
}

/// The number that a `serde_json::Number` holds.
pub uninterp spec fn number_contents(n: serde_json::Number) -> NumberView;

/// A number of `serde_json`, which carries a double that this library never computes with.
#[verifier::external_type_specification]
#[verifier::external_body]
pub struct ExNumber(serde_json::Number);

/// `serde_json::Number::clone`: the copy holds the same number.
pub assume_specification[ <serde_json::Number as Clone>::clone ](n: &serde_json::Number) -> (r: serde_json::Number)
    ensures
        number_contents(r) == number_contents(*n),
;

/// `serde_json::Number::from_i128`: a number for every integer of 64 bits, signed or
/// unsigned, and none for any other.
#[verifier::external_body]
fn number_from_int(i: i128) -> (r: Option<serde_json::Number>)
    ensures
        r is Some <==> i64::MIN <= i <= u64::MAX,
        r is Some ==> number_contents(r->0) == NumberView::Int(i as int),
{
    serde_json::Number::from_i128(i)
}

/// `serde_json::Number::as_i128`: the integer that the number is, and nothing for a double.
#[verifier::external_body]
pub(crate) fn number_to_int(n: &serde_json::Number) -> (r: Option<i128>)
    ensures
        match number_contents(*n) {
            NumberView::Int(i) => r is Some && r->0 == i,
            NumberView::Float(_) => r is None,
        },
{
    n.as_i128()
}

/// `serde_json::Number::as_f64`: a number that is a double gives its bits. Of an integer
/// nothing is stated.
#[verifier::external_body]
pub(crate) fn number_bits(n: &serde_json::Number) -> (r: Option<u64>)
    ensures
        number_contents(*n) matches NumberView::Float(bits) ==> r == Some(bits),
{
    n.as_f64().map(|x| x.to_bits())
}

/// A parsed JSON document of `serde_json`.
#[verifier::external_type_specification]
#[verifier::external_body]
pub struct ExValue(serde_json::Value);

/// The JSON value that a `serde_json::Value` holds.
pub uninterp spec fn value_contents(v: serde_json::Value) -> JsonView;

/// What `serde_json` reads out of a text: a value, or what is wrong with the text.
pub uninterp spec fn parsed_text(text: Seq<char>) -> Result<JsonView, Seq<char>>;

/// What `serde_json` reads out of bytes: a value, or what is wrong with them.
pub uninterp spec fn parsed_bytes(bytes: Seq<u8>) -> Result<JsonView, Seq<char>>;

/// The compact text that `serde_json` writes for a value.
pub uninterp spec fn rendered(value: JsonView) -> Seq<char>;

/// The result of a call whose outcome is named, with a value and an error text by their views.
pub open spec fn outcome_view(r: Result<serde_json::Value, String>) -> Result<JsonView, Seq<char>> {
    match r {
        Ok(v) => Ok(value_contents(v)),
        Err(e) => Err(e@),
    }
}

/// `serde_json::from_str` into a `serde_json::Value`: the outcome depends on the text alone.
/// Which texts are JSON, and how an error reads, is not stated.
#[verifier::external_body]
fn value_from_text(text: &str) -> (r: Result<serde_json::Value, String>)
    ensures
        outcome_view(r) == parsed_text(text@),
{
    serde_json::from_str::<serde_json::Value>(text).map_err(|e| e.to_string())
}

/// `serde_json::from_slice` into a `serde_json::Value`: the outcome depends on the bytes
/// alone. Which bytes are JSON, and how an error reads, is not stated.
#[verifier::external_body]
fn value_from_bytes(bytes: &[u8]) -> (r: Result<serde_json::Value, String>)
    ensures
        outcome_view(r) == parsed_bytes(bytes@),
{
    serde_json::from_slice::<serde_json::Value>(bytes).map_err(|e| e.to_string())
}

/// `serde_json::Value::to_string`: the text depends on the value alone (the crate's maps are
/// sorted by key). How it is laid out is not stated.
#[verifier::external_body]
fn value_to_text(v: &serde_json::Value) -> (r: String)
    ensures
        r@ == rendered(value_contents(*v)),
{
    v.to_string()
}

/// One level of a `serde_json::Value`, borrowed from it.
enum ValueRef<'a> {
    Null,
    Bool(bool),
    Number(&'a serde_json::Number),
    Text(&'a String),
    Array(&'a Vec<serde_json::Value>),
    Object(Vec<(&'a String, &'a serde_json::Value)>),
}

/// One level of a `serde_json::Value`, to build one of.
enum ValueParts {
    Null,
    Bool(bool),
    Number(serde_json::Number),
    Text(String),
    Array(Vec<serde_json::Value>),
    /// The object without members.
    EmptyObject,
}

spec fn value_items(items: Seq<serde_json::Value>) -> Seq<JsonView> {
    Seq::new(items.len(), |i: int| value_contents(items[i]))
}

spec fn value_members(members: Seq<(Seq<char>, JsonView)>) -> Map<Seq<char>, JsonView>
    decreases members.len(),
{
    if members.len() == 0 {
        Map::empty()
    } else {
        value_members(members.drop_last()).insert(members.last().0, members.last().1)
    }
}

spec fn ref_pairs(members: Seq<(&String, &serde_json::Value)>) -> Seq<(Seq<char>, JsonView)> {
    Seq::new(members.len(), |i: int| (members[i].0@, value_contents(*members[i].1)))
}

spec fn ref_view(v: ValueRef) -> JsonView {
    match v {
        ValueRef::Null => JsonView::Null,
        ValueRef::Bool(b) => JsonView::Bool(b),
        ValueRef::Number(n) => JsonView::Number(number_contents(*n)),
        ValueRef::Text(s) => JsonView::Text(s@),
        ValueRef::Array(items) => JsonView::Array(value_items(items@)),
        ValueRef::Object(members) => JsonView::Object(value_members(ref_pairs(members@))),
    }
}

spec fn parts_view(v: ValueParts) -> JsonView {
    match v {
        ValueParts::Null => JsonView::Null,
        ValueParts::Bool(b) => JsonView::Bool(b),
        ValueParts::Number(n) => JsonView::Number(number_contents(n)),
        ValueParts::Text(s) => JsonView::Text(s@),
        ValueParts::Array(items) => JsonView::Array(value_items(items@)),
        ValueParts::EmptyObject => JsonView::empty_object(),
    }
}

spec fn distinct_keys(members: Seq<(&String, &serde_json::Value)>) -> bool {
    forall|i: int, j: int|
        0 <= i < j < members.len() ==> (#[trigger] members[i]).0@ != (#[trigger] members[j]).0@
}

/// The variants of `serde_json::Value`, with the members of an object as `serde_json::Map`
/// walks them: each key once.
#[verifier::external_body]
fn open_value<'a>(v: &'a serde_json::Value) -> (r: ValueRef<'a>)
    ensures
        ref_view(r) == value_contents(*v),
        r matches ValueRef::Object(members) ==> distinct_keys(members@),
{
    match v {
        serde_json::Value::Null => ValueRef::Null,
        serde_json::Value::Bool(b) => ValueRef::Bool(*b),
        serde_json::Value::Number(n) => ValueRef::Number(n),
        serde_json::Value::String(s) => ValueRef::Text(s),
        serde_json::Value::Array(items) => ValueRef::Array(items),
        serde_json::Value::Object(members) => ValueRef::Object(members.iter().collect()),
    }
}

/// The variants of `serde_json::Value`, and `serde_json::Map::new` for the object without
/// members.
#[verifier::external_body]
fn close_value(parts: ValueParts) -> (r: serde_json::Value)
    ensures
        value_contents(r) == parts_view(parts),
{
    match parts {
        ValueParts::Null => serde_json::Value::Null,
        ValueParts::Bool(b) => serde_json::Value::Bool(b),
        ValueParts::Number(n) => serde_json::Value::Number(n),
        ValueParts::Text(s) => serde_json::Value::String(s),
        ValueParts::Array(items) => serde_json::Value::Array(items),
        ValueParts::EmptyObject => serde_json::Value::Object(serde_json::Map::new()),
    }
}

/// `serde_json::Map::insert` on the members of an object: puts the value under the key, in place
/// of what stood there.
#[verifier::external_body]
fn put_value(object: &mut serde_json::Value, key: String, value: serde_json::Value)
    requires
        value_contents(*old(object)) is Object,
    ensures
        value_contents(*final(object)) == JsonView::Object(
            value_contents(*old(object))->Object_0.insert(key@, value_contents(value)),
        ),
{
    if let serde_json::Value::Object(members) = object {
        members.insert(key, value);
    }
}

proof fn lemma_value_members_pair(members: Seq<(Seq<char>, JsonView)>, i: int)
    requires
        0 <= i < members.len(),
        forall|a: int, b: int|
            0 <= a < b < members.len() ==> (#[trigger] members[a]).0 != (#[trigger] members[b]).0,
    ensures
        value_members(members).dom().finite(),
        value_members(members).contains_key(members[i].0),
        value_members(members)[members[i].0] == members[i].1,
    decreases members.len(),
{
    let rest = members.drop_last();
    assert forall|a: int, b: int| 0 <= a < b < rest.len() implies (#[trigger] rest[a]).0 != (
    #[trigger] rest[b]).0 by {
        assert(members[a].0 != members[b].0);
    }
    if rest.len() > 0 {
        lemma_value_members_pair(rest, 0);
    }
    if i < members.len() - 1 {
        assert(rest[i] == members[i]);
        lemma_value_members_pair(rest, i);
        assert(members[i].0 != members[members.len() - 1].0);
    }
}

/// A `serde_json::Value` as a value of this library.
fn json_from_value(v: &serde_json::Value) -> (r: Json)
    ensures
        r@ == value_contents(*v),
    decreases value_contents(*v),
{
    match open_value(v) {
        ValueRef::Null => Json::Null,
        ValueRef::Bool(b) => Json::Bool(b),
        ValueRef::Number(n) => Json::Number(n.clone()),
        ValueRef::Text(s) => Json::Text(s.clone()),
        ValueRef::Array(items) => {
            let mut out: Vec<Json> = Vec::new();
            let mut i: usize = 0;
            while i < items.len()
                invariant
                    i <= items@.len(),
                    value_contents(*v) == JsonView::Array(value_items(items@)),
                    items_view(out@) == value_items(items@).take(i as int),
                decreases items@.len() - i,
            {
                let ghost before = out@;
                proof {
                    let view = value_contents(*v);
                    assert(view->Array_0[i as int] == value_contents(items@[i as int]));
                    assert(decreases_to!(view => view->Array_0));
                    assert(decreases_to!(view->Array_0 => view->Array_0[i as int]));
                }
                out.push(json_from_value(&items[i]));
                proof {
                    assert(out@.drop_last() =~= before);
                    assert(items_view(out@) =~= value_items(items@).take(i + 1));
                }
                i = i + 1;
            }
            proof {
                assert(value_items(items@).take(i as int) =~= value_items(items@));
            }
            Json::Array(out)
        },
        ValueRef::Object(members) => {
            let mut out: Vec<(String, Json)> = Vec::new();
            let mut i: usize = 0;
            let ghost pairs = ref_pairs(members@);
            while i < members.len()
                invariant
                    i <= members@.len(),
                    pairs == ref_pairs(members@),
                    value_contents(*v) == JsonView::Object(value_members(pairs)),
                    distinct_keys(members@),
                    members_view(out@) == value_members(pairs.take(i as int)),
                decreases members@.len() - i,
            {
                let ghost before = out@;
                proof {
                    let view = value_contents(*v);
                    assert forall|a: int, b: int| 0 <= a < b < pairs.len() implies (
                    #[trigger] pairs[a]).0 != (#[trigger] pairs[b]).0 by {
                        assert(members@[a].0@ != members@[b].0@);
                    }
                    lemma_value_members_pair(pairs, i as int);
                    let key = pairs[i as int].0;
                    assert(view->Object_0[key] == value_contents(*members@[i as int].1));
                    assert(decreases_to!(view => view->Object_0));
                    assert(decreases_to!(view->Object_0 => view->Object_0[key]));
                }
                out.push((members[i].0.clone(), json_from_value(members[i].1)));
                proof {
                    assert(out@.drop_last() =~= before);
                    assert(pairs.take(i + 1).drop_last() =~= pairs.take(i as int));
                    assert(pairs.take(i + 1).last() == pairs[i as int]);
                }
                i = i + 1;
            }
            proof {
                assert(pairs.take(i as int) =~= pairs);
            }
            Json::Object(out)
        },
    }
}

/// A value of this library as a `serde_json::Value`.
fn json_to_value(j: &Json) -> (r: serde_json::Value)
    ensures
        value_contents(r) == j@,
    decreases j,
{
    match j {
        Json::Null => close_value(ValueParts::Null),
        Json::Bool(b) => close_value(ValueParts::Bool(*b)),
        Json::Number(n) => close_value(ValueParts::Number(n.clone())),
        Json::Text(s) => close_value(ValueParts::Text(s.clone())),
        Json::Array(items) => {
            let values = items_to_values(items);
            close_value(ValueParts::Array(values))
        },
        Json::Object(members) => members_to_value(members),
    }
}

fn items_to_values(items: &Vec<Json>) -> (r: Vec<serde_json::Value>)
    ensures
        value_items(r@) == items_view(items@),
    decreases items,
{
    let mut out: Vec<serde_json::Value> = Vec::new();
    let mut i: usize = 0;
    while i < items.len()
        invariant
            i <= items@.len(),
            value_items(out@) == items_view(items@.take(i as int)),
        decreases items@.len() - i,
    {
        let ghost before = out@;
        out.push(json_to_value(&items[i]));
        proof {
            assert(items@.take(i + 1).drop_last() =~= items@.take(i as int));
            assert(value_items(out@) =~= value_items(before).push(json_view(items@[i as int])));
        }
        i = i + 1;
    }
    proof {
        assert(items@.take(i as int) =~= items@);
    }
    out
}

/// The object that has these members, of two under one key the later one.
fn members_to_value(members: &Vec<(String, Json)>) -> (r: serde_json::Value)
    ensures
        value_contents(r) == JsonView::Object(members_view(members@)),
    decreases members,
{
    let mut out = close_value(ValueParts::EmptyObject);
    let mut i: usize = 0;
    while i < members.len()
        invariant
            i <= members@.len(),
            value_contents(out) == JsonView::Object(members_view(members@.take(i as int))),
        decreases members@.len() - i,
    {
        proof {
            assert(decreases_to!(members => members@[i as int]));
            assert(decreases_to!(members@[i as int] => members@[i as int].1));
        }
        let value = json_to_value(&members[i].1);
        put_value(&mut out, members[i].0.clone(), value);
        proof {
            assert(members@.take(i + 1).drop_last() =~= members@.take(i as int));
        }
        i = i + 1;
    }
    proof {
        assert(members@.take(i as int) =~= members@);
    }
    out
}

/// What a reading of this library means: a value, or the text of an error.
pub open spec fn reading_view(r: Result<Json, String>) -> Result<JsonView, Seq<char>> {
    match r {
        Ok(j) => Ok(j@),
        Err(e) => Err(e@),
    }
}

impl Json {
    /// Reads a value out of a text.
    pub fn parse(text: &str) -> (r: Result<Json, String>)
        ensures
            reading_view(r) == parsed_text(text@),
    {
        match value_from_text(text) {
            Ok(v) => Ok(json_from_value(&v)),
            Err(e) => Err(e),
        }
    }

    /// Reads a value out of bytes.
    pub fn parse_bytes(bytes: &[u8]) -> (r: Result<Json, String>)
        ensures
            reading_view(r) == parsed_bytes(bytes@),
    {
        match value_from_bytes(bytes) {
            Ok(v) => Ok(json_from_value(&v)),
            Err(e) => Err(e),
        }
    }

    /// The compact text of the value.
    pub fn render(&self) -> (r: String)
        ensures
            r@ == rendered(self@),
    {
        let v = json_to_value(self);
        value_to_text(&v)
    }

    /// The compact text of the value as bytes.
    pub fn to_bytes(&self) -> (r: Vec<u8>)
        ensures
            r@ == encode_utf8(rendered(self@)),
    {
        self.render().as_str().as_bytes_vec()
    }

    /// An unsigned integer.
    pub fn from_u64(n: u64) -> (r: Json)
        ensures
            r@ == JsonView::Number(NumberView::Int(n as int)),
    {
        match number_from_int(n as i128) {
            Some(number) => Json::Number(number),
            None => Json::Null,
        }
    }

    /// A signed integer.
    pub fn from_i64(n: i64) -> (r: Json)
        ensures
            r@ == JsonView::Number(NumberView::Int(n as int)),
    {
        match number_from_int(n as i128) {
            Some(number) => Json::Number(number),
            None => Json::Null,
        }
    }

    /// The integer, where the value is one.
    pub fn as_int(&self) -> (r: Option<i128>)
        ensures
            match r {
                Some(i) => self@ == JsonView::Number(NumberView::Int(i as int)),
                None => !(self@ matches JsonView::Number(NumberView::Int(_))),
            },
    {
        match self {
            Json::Number(n) => number_to_int(n),
            _ => None,
        }
    }
}

/// Members one behind the other make the object of the first with that of the second laid over
/// it: of two members under one key the later one counts.
pub proof fn law_later_members_win(a: Seq<(String, Json)>, b: Seq<(String, Json)>)
    ensures
        members_view(a + b) == members_view(a).union_prefer_right(members_view(b)),
        b.len() == 1 ==> members_view(b) == map![b[0].0@ => b[0].1@],
    decreases b.len(),
{
    if b.len() == 0 {
        assert(a + b =~= a);
        assert(members_view(a).union_prefer_right(members_view(b)) =~= members_view(a));
    } else {
        law_later_members_win(a, b.drop_last());
        assert((a + b).drop_last() =~= a + b.drop_last());
        let last = b.last();
        assert(members_view(a + b) =~= members_view(a).union_prefer_right(members_view(b)));
        if b.len() == 1 {
            assert(b.drop_last() =~= Seq::empty());
            assert(members_view(b) =~= map![b[0].0@ => b[0].1@]);
        }
    }
}

/// An array means the sequence of what its items mean: as many, in the same order.
pub proof fn law_arrays_mean_their_items(items: Vec<Json>, i: int)
    ensures
        Json::Array(items)@ is Array,
        Json::Array(items)@->Array_0.len() == items@.len(),
        0 <= i < items@.len() ==> Json::Array(items)@->Array_0[i] == items@[i]@,
{
    lemma_items_view(items@);
}

/// Values that are no array and no object mean what they hold.
pub proof fn law_plain_values_mean_what_they_hold(b: bool, n: serde_json::Number, s: String)
    ensures
        Json::Null@ is Null,
        Json::Bool(b)@ == JsonView::Bool(b),
        Json::Number(n)@ == JsonView::Number(number_contents(n)),
        Json::Text(s)@ == JsonView::Text(s@),
{
}

/// What is put under a key is found under it, and everything else stays where it was.
pub proof fn law_members_are_found(
    members: Map<Seq<char>, JsonView>,
    key: Seq<char>,
    value: JsonView,
    other: Seq<char>,
)
    ensures
        ({
            let object = JsonView::Object(members.insert(key, value));
            &&& object.member(key) == Some(value)
            &&& other != key ==> object.member(other) == JsonView::Object(members).member(other)
            &&& JsonView::Object(Map::<Seq<char>, JsonView>::empty()).member(key) is None
            &&& value matches JsonView::Text(text) ==> object.member_text(key) == Some(text)
            &&& !(value is Text) ==> object.member_text(key) is None
        }),
{
}

/// What was read, or why it could not be, is what the result holds.
pub proof fn law_readings_say_what_they_hold(
    read: Result<Json, String>,
    parsed: Result<serde_json::Value, String>,
)
    ensures
        read matches Ok(value) ==> reading_view(read) == Ok::<JsonView, Seq<char>>(value@),
        read matches Err(reason) ==> reading_view(read) == Err::<JsonView, Seq<char>>(reason@),
        parsed matches Ok(value) ==> outcome_view(parsed) == Ok::<JsonView, Seq<char>>(
            value_contents(value),
        ),
        parsed matches Err(reason) ==> outcome_view(parsed) == Err::<JsonView, Seq<char>>(reason@),
{
}

}
