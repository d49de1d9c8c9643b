//! JSON values as the pipeline sees them: a tree of plain data that the library can
//! read and build, with parsing and printing left to `serde_json`.

use serde_json::{Number, Value};
use vstd::prelude::*;

use crate::text::str_eq;

verus! {

/// A JSON number that is no integer: its decimal text, kept together with the number
/// as `serde_json` read it. There is no other way to make one than to parse a text.
#[derive(Debug)]
pub struct FloatNumber {
    text: String,
    inner: Number,
}

/// A JSON number: an integer that fits `u64`, a negative integer that fits `i64`, or
/// any other number.
#[derive(Debug)]
pub enum JsonNumber {
    PosInt(u64),
    NegInt(i64),
    Float(FloatNumber),
}

/// A JSON value. An object keeps its members in order; where a key occurs twice the
/// later member is the one that counts.
#[derive(Debug)]
pub enum JsonValue {
    Null,
    Bool(bool),
    Number(JsonNumber),
    Text(String),
    Array(Vec<JsonValue>),
    Object(Vec<(String, JsonValue)>),
}

pub enum NumberView {
    PosInt(u64),
    NegInt(i64),
    Float(Seq<char>),
}

pub enum Json {
    Null,
    Bool(bool),
    Number(NumberView),
    Text(Seq<char>),
    Array(Seq<Json>),
    Object(Seq<(Seq<char>, Json)>),
}

impl View for FloatNumber {
    type V = Seq<char>;

    closed spec fn view(&self) -> Seq<char> {
        self.text@
    }
}

impl View for JsonNumber {
    type V = NumberView;

    open spec fn view(&self) -> NumberView {
        match self {
            JsonNumber::PosInt(n) => NumberView::PosInt(*n),
            JsonNumber::NegInt(n) => NumberView::NegInt(*n),
            JsonNumber::Float(t) => NumberView::Float(t@),
        }
    }
}

/// The view of a value: the same tree over sequences.
pub open spec fn json_view(v: JsonValue) -> Json
    decreases v,
{
    match v {
        JsonValue::Null => Json::Null,
        JsonValue::Bool(b) => Json::Bool(b),
        JsonValue::Number(n) => Json::Number(n@),
        JsonValue::Text(t) => Json::Text(t@),
        JsonValue::Array(items) => Json::Array(
            Seq::new(
                items@.len(),
                |i: int|
                    if 0 <= i < items@.len() {
                        json_view(items@[i])
                    } else {
                        Json::Null
                    },
            ),
        ),
        JsonValue::Object(members) => Json::Object(
            Seq::new(
                members@.len(),
                |i: int|
                    if 0 <= i < members@.len() {
                        (members@[i].0@, json_view(members@[i].1))
                    } else {
                        (Seq::empty(), Json::Null)
                    },
            ),
        ),
    }
}

impl View for JsonValue {
    type V = Json;

    open spec fn view(&self) -> Json {
        json_view(*self)
    }
}

impl FloatNumber {
    /// The decimal text of the number.
    pub fn as_str(&self) -> (r: &str)
        ensures
            r@ == self@,
    {
        self.text.as_str()
    }
}

impl Clone for FloatNumber {
    fn clone(&self) -> (r: Self)
        ensures
            r@ == self@,
    {
        FloatNumber { text: self.text.clone(), inner: clone_number(&self.inner) }
    }
}

impl Clone for JsonNumber {
    fn clone(&self) -> (r: Self)
        ensures
            r@ == self@,
    {
        match self {
            JsonNumber::PosInt(n) => JsonNumber::PosInt(*n),
            JsonNumber::NegInt(n) => JsonNumber::NegInt(*n),
            JsonNumber::Float(t) => JsonNumber::Float(t.clone()),
        }
    }
}

impl Clone for JsonValue {
    fn clone(&self) -> (r: Self)
        ensures
            r@ == self@,
        decreases self,
    {
        match self {
            JsonValue::Null => JsonValue::Null,
            JsonValue::Bool(b) => JsonValue::Bool(*b),
            JsonValue::Number(n) => JsonValue::Number(n.clone()),
            JsonValue::Text(t) => JsonValue::Text(t.clone()),
            JsonValue::Array(items) => {
                let mut out: Vec<JsonValue> = Vec::new();
                let mut i: usize = 0;
                while i < items.len()
                    invariant
                        self == JsonValue::Array(*items),
                        i <= items.len(),
                        out.len() == i,
                        forall|j: int| 0 <= j < i ==> out@[j]@ == items@[j]@,
                    decreases items.len() - i,
                {
                    proof {
                        vstd::std_specs::vec::axiom_vec_index_decreases(*items, i as int);
                        assert(decreases_to!(self => self->Array_0));
                        assert(decreases_to!(items => items[i as int]));
                    }
                    out.push(items[i].clone());
                    i += 1;
                }
                let r = JsonValue::Array(out);
                assert(r@->Array_0 =~= self@->Array_0);
                r
            },
            JsonValue::Object(members) => {
                let mut out: Vec<(String, JsonValue)> = Vec::new();
                let mut i: usize = 0;
                while i < members.len()
                    invariant
                        self == JsonValue::Object(*members),
                        i <= members.len(),
                        out.len() == i,
                        forall|j: int|
                            0 <= j < i ==> out@[j].0@ == members@[j].0@ && out@[j].1@
                                == members@[j].1@,
                    decreases members.len() - i,
                {
                    proof {
                        vstd::std_specs::vec::axiom_vec_index_decreases(*members, i as int);
                        assert(decreases_to!(self => self->Object_0));
                        assert(decreases_to!(members => members[i as int]));
                        assert(decreases_to!(members[i as int] => members[i as int].1));
                    }
                    out.push((members[i].0.clone(), members[i].1.clone()));
                    i += 1;
                }
                let r = JsonValue::Object(out);
                assert(r@->Object_0 =~= self@->Object_0);
                r
            },
        }
    }
}

/// The members of an object, each key and value by its view.
pub open spec fn members_view(members: Seq<(String, JsonValue)>) -> Seq<(Seq<char>, Json)> {
    Seq::new(members.len(), |i: int| (members[i].0@, members[i].1@))
}

/// The members of an object that is held by reference.
pub open spec fn member_refs_view(members: Seq<(String, &JsonValue)>) -> Seq<(Seq<char>, Json)> {
    Seq::new(members.len(), |i: int| (members[i].0@, members[i].1@))
}

/// The view of an optional value.
pub open spec fn opt_json(o: Option<JsonValue>) -> Option<Json> {
    match o {
        Some(v) => Some(v@),
        None => None,
    }
}

/// The view of an optional number.
pub open spec fn opt_number(o: Option<JsonNumber>) -> Option<NumberView> {
    match o {
        Some(n) => Some(n@),
        None => None,
    }
}

/// The value under `key`: that of the last member with this key.
pub open spec fn lookup(members: Seq<(Seq<char>, Json)>, key: Seq<char>) -> Option<Json>
    decreases members.len(),
{
    if members.len() == 0 {
        None
    } else if members.last().0 == key {
        Some(members.last().1)
    } else {
        lookup(members.drop_last(), key)
    }
}

/// The members of an object as a map: each key with the value of its last member.
pub open spec fn members_map(members: Seq<(Seq<char>, Json)>) -> Map<Seq<char>, Json>
    decreases members.len(),
{
    if members.len() == 0 {
        Map::empty()
    } else {
        members_map(members.drop_last()).insert(members.last().0, members.last().1)
    }
}

/// Adding a member at the end sets its key in the map.
pub proof fn lemma_members_map_push(members: Seq<(Seq<char>, Json)>, key: Seq<char>, value: Json)
    ensures
        members_map(members.push((key, value))) == members_map(members).insert(key, value),
{
    assert(members.push((key, value)).drop_last() =~= members);
}

/// The map holds under each key what `lookup` finds.
pub proof fn lemma_members_map_lookup(members: Seq<(Seq<char>, Json)>, key: Seq<char>)
    ensures
        members_map(members).dom().contains(key) <==> lookup(members, key).is_some(),
        lookup(members, key).is_some() ==> members_map(members)[key] == lookup(members, key)->0,
    decreases members.len(),
{
    if members.len() > 0 {
        lemma_members_map_lookup(members.drop_last(), key);
    }
}

/// The text of a value that is a string.
pub open spec fn json_as_str(j: Json) -> Option<Seq<char>> {
    match j {
        Json::Text(t) => Some(t),
        _ => None,
    }
}

/// The integer of a value that is a number and fits `i64`.
pub open spec fn json_as_i64(j: Json) -> Option<i64> {
    match j {
        Json::Number(NumberView::PosInt(n)) => if n <= i64::MAX {
            Some(n as i64)
        } else {
            None
        },
        Json::Number(NumberView::NegInt(n)) => Some(n),
        _ => None,
    }
}

/// The text under `key`, where there is a member under it and it is a string.
pub open spec fn lookup_str(members: Seq<(Seq<char>, Json)>, key: Seq<char>) -> Option<
    Seq<char>,
> {
    match lookup(members, key) {
        Some(j) => json_as_str(j),
        None => None,
    }
}

/// What `serde_json::from_str` makes of a text: the value, or nothing where the text
/// is not one JSON value.
pub uninterp spec fn json_of_text(text: Seq<char>) -> Option<Json>;

/// What `serde_json::from_slice` makes of bytes: the value, or nothing where the
/// bytes are not one JSON value in UTF-8.
pub uninterp spec fn json_of_bytes(bytes: Seq<u8>) -> Option<Json>;

/// What `serde_json::to_string` prints for a value.
pub uninterp spec fn text_of_json(value: Json) -> Seq<char>;

/// What `serde_json::Number::from_str` makes of a text: the number, or nothing where
/// the text is not one JSON number.
pub uninterp spec fn number_of_text(text: Seq<char>) -> Option<NumberView>;

#[verifier::external_type_specification]
#[verifier::external_body]
pub struct ExSerdeValue(Value);

#[verifier::external_type_specification]
#[verifier::external_body]
pub struct ExSerdeNumber(Number);

/// `Clone::clone` of `serde_json::Number`: the same number again.
#[verifier::external_body]
fn clone_number(n: &Number) -> Number {
    n.clone()
}

/// Moves a `serde_json::Number` into a [`JsonNumber`]: the integer where
/// `as_u64` or `as_i64` gives one, else the number itself with the text that
/// `Display` prints for it.
#[verifier::external_body]
fn number_from_serde(n: Number) -> JsonNumber {
    match (n.as_u64(), n.as_i64()) {
        (Some(u), _) => JsonNumber::PosInt(u),
        (None, Some(i)) => JsonNumber::NegInt(i),
        (None, None) => JsonNumber::Float(FloatNumber { text: n.to_string(), inner: n }),
    }
}

/// Moves a [`JsonNumber`] into a `serde_json::Value`: an integer by `Value::from`,
/// any other number as the `serde_json::Number` that it holds.
#[verifier::external_body]
fn number_to_serde(n: &JsonNumber) -> Value {
    match n {
        JsonNumber::PosInt(n) => Value::from(*n),
        JsonNumber::NegInt(n) => Value::from(*n),
        JsonNumber::Float(f) => Value::Number(f.inner.clone()),
    }
}

/// Moves a `serde_json::Value` into a [`JsonValue`], variant by variant. The members
/// of an object come in the order in which `serde_json::Map` hands them out.
#[verifier::external_body]
fn value_from_serde(v: Value) -> JsonValue {
    match v {
        Value::Null => JsonValue::Null,
        Value::Bool(b) => JsonValue::Bool(b),
        Value::Number(n) => JsonValue::Number(number_from_serde(n)),
        Value::String(s) => JsonValue::Text(s),
        Value::Array(a) => JsonValue::Array(a.into_iter().map(value_from_serde).collect()),
        Value::Object(o) => JsonValue::Object(
            o.into_iter().map(|(k, v)| (k, value_from_serde(v))).collect(),
        ),
    }
}

/// Moves a [`JsonValue`] into a `serde_json::Value`, variant by variant. The members
/// of an object are inserted in order into a `serde_json::Map`.
#[verifier::external_body]
fn value_to_serde(v: &JsonValue) -> Value {
    match v {
        JsonValue::Null => Value::Null,
        JsonValue::Bool(b) => Value::Bool(*b),
        JsonValue::Number(n) => number_to_serde(n),
        JsonValue::Text(t) => Value::String(t.clone()),
        JsonValue::Array(a) => Value::Array(a.iter().map(value_to_serde).collect()),
        JsonValue::Object(o) => Value::Object(
            o.iter().map(|(k, v)| (k.clone(), value_to_serde(v))).collect(),
        ),
    }
}

/// `serde_json::from_str`, read as a `serde_json::Value`: the value that the text
/// spells, or `None` where `serde_json` reports an error.
#[verifier::external_body]
pub(crate) fn json_from_text(text: &str) -> (r: Option<JsonValue>)
    ensures
        opt_json(r) == json_of_text(text@),
{
    serde_json::from_str::<Value>(text).ok().map(value_from_serde)
}

/// `serde_json::from_slice`, read as a `serde_json::Value`: the value that the bytes
/// spell, or `None` where `serde_json` reports an error.
#[verifier::external_body]
pub(crate) fn json_from_bytes(bytes: &[u8]) -> (r: Option<JsonValue>)
    ensures
        opt_json(r) == json_of_bytes(bytes@),
{
    serde_json::from_slice::<Value>(bytes).ok().map(value_from_serde)
}

/// `serde_json::to_string` on an object with the given members, inserted in order
/// into a `serde_json::Map`: the compact JSON text of that object.
#[verifier::external_body]
pub(crate) fn json_object_text(members: &Vec<(String, &JsonValue)>) -> (r: String)
    ensures
        r@ == text_of_json(Json::Object(member_refs_view(members@))),
{
    let map: serde_json::Map<String, Value> = members.iter().map(
        |(k, v)| (k.clone(), value_to_serde(v)),
    ).collect();
    serde_json::to_string(&map).unwrap_or_default()
}

/// `serde_json::Number::from_str`: the number that the text spells, or `None` where
/// `serde_json` reports an error.
#[verifier::external_body]
pub(crate) fn number_from_text(text: &str) -> (r: Option<JsonNumber>)
    ensures
        opt_number(r) == number_of_text(text@),
{
    text.parse::<Number>().ok().map(number_from_serde)
}

impl JsonNumber {
    /// Parses a text as one JSON number.
    pub fn parse(text: &str) -> (r: Option<JsonNumber>)
        ensures
            opt_number(r) == number_of_text(text@),
    {
        number_from_text(text)
    }
}

impl JsonValue {
    /// The text of this value, if it is a string.
    pub fn as_str(&self) -> (r: Option<&str>)
        ensures
            match r {
                Some(t) => json_as_str(self@) == Some(t@),
                None => json_as_str(self@).is_none(),
            },
    {
        match self {
            JsonValue::Text(t) => Some(t.as_str()),
            _ => None,
        }
    }

    /// The integer of this value, if it is a number that fits `i64`.
    pub fn as_i64(&self) -> (r: Option<i64>)
        ensures
            r == json_as_i64(self@),
    {
        match self {
            JsonValue::Number(JsonNumber::PosInt(n)) => {
                if *n <= 0x7fff_ffff_ffff_ffff {
                    Some(*n as i64)
                } else {
                    None
                }
            },
            JsonValue::Number(JsonNumber::NegInt(n)) => Some(*n),
            _ => None,
        }
    }

    /// The members of this value, if it is an object.
    pub fn as_object(&self) -> (r: Option<&Vec<(String, JsonValue)>>)
        ensures
            match r {
                Some(members) => self@ == Json::Object(members_view(members@)),
                None => !(self@ is Object),
            },
    {
        match self {
            JsonValue::Object(members) => {
                assert(self@->Object_0 =~= members_view(members@));
                Some(members)
            },
            _ => None,
        }
    }

    /// Parses a text as one JSON value.
    pub fn parse(text: &str) -> (r: Option<JsonValue>)
        ensures
            opt_json(r) == json_of_text(text@),
    {
        json_from_text(text)
    }
}

/// The value under `key` among the members of an object: the last one, where the key
/// occurs more than once.
pub fn get<'a>(members: &'a Vec<(String, JsonValue)>, key: &str) -> (r: Option<&'a JsonValue>)
    ensures
        match r {
            Some(v) => lookup(members_view(members@), key@) == Some(v@),
            None => lookup(members_view(members@), key@).is_none(),
        },
{
    let ghost all = members_view(members@);
    let mut i: usize = members.len();
    assert(all.take(i as int) =~= all);
    while i > 0
        invariant
            i <= members.len(),
            all == members_view(members@),
            lookup(all, key@) == lookup(all.take(i as int), key@),
        decreases i,
    {
        i -= 1;
        proof {
            let head = all.take(i as int + 1);
            assert(head.last() == all[i as int]);
            assert(head.drop_last() =~= all.take(i as int));
        }
        if str_eq(members[i].0.as_str(), key) {
            return Some(&members[i].1);
        }
    }
    assert(all.take(0).len() == 0);
    None
}

} // verus!
