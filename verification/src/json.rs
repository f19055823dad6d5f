//! JSON documents as the library sees them.
//!
//! [`Json`] is a document received from a client: each node carries, beside its
//! value, the compact text that the host's JSON library writes for it, which is
//! what content hashes and console message bodies are computed from.
//! [`JsonValue`] is a document the library produces; [`JsonModel`] is the
//! mathematical value that contracts speak of.
use vstd::prelude::*;

use crate::text::str_eq;

verus! {

/// A JSON number: a non-negative integer, a negative integer, or a finite
/// floating-point number given by its IEEE-754 bit pattern.
#[derive(Clone, Copy, Debug, PartialEq, Eq, Structural)]
pub enum JsonNumber {
    PosInt(u64),
    NegInt(i64),
    Float(u64),
}

impl JsonNumber {
    /// The number as an `i64`, when it is an integer that fits.
    pub open spec fn spec_as_i64(self) -> Option<i64> {
        match self {
            JsonNumber::PosInt(u) => if u <= i64::MAX {
                Some(u as i64)
            } else {
                None
            },
            JsonNumber::NegInt(i) => Some(i),
            JsonNumber::Float(_) => None,
        }
    }

    pub fn as_i64(&self) -> (r: Option<i64>)
        ensures
            r == self.spec_as_i64(),
    {
        match self {
            JsonNumber::PosInt(u) => if *u <= 9223372036854775807 {
                Some(*u as i64)
            } else {
                None
            },
            JsonNumber::NegInt(i) => Some(*i),
            JsonNumber::Float(_) => None,
        }
    }
}

/// A received JSON document node, with its compact text.
#[derive(Debug)]
pub enum Json {
    Null { text: String },
    Bool { flag: bool, text: String },
    Number { number: JsonNumber, text: String },
    String { value: String, text: String },
    Array { items: Vec<Json>, text: String },
    Object { members: Vec<(String, Json)>, text: String },
}

/// The value of the first member named `key`.
pub open spec fn member(members: Seq<(String, Json)>, key: Seq<char>) -> Option<Json>
    decreases members.len(),
{
    if members.len() == 0 {
        None
    } else if members[0].0@ == key {
        Some(members[0].1)
    } else {
        member(members.drop_first(), key)
    }
}

/// What looking up `key` in a document yields: a member of an object, nothing otherwise.
pub open spec fn get(j: Json, key: Seq<char>) -> Option<Json> {
    match j {
        Json::Object { members, .. } => member(members@, key),
        _ => None,
    }
}

pub open spec fn opt_get(o: Option<Json>, key: Seq<char>) -> Option<Json> {
    match o {
        Some(j) => get(j, key),
        None => None,
    }
}

/// The JSON pointer step `0`: member `"0"` of an object, first item of an array.
pub open spec fn first_child(j: Json) -> Option<Json> {
    match j {
        Json::Object { members, .. } => member(members@, "0"@),
        Json::Array { items, .. } => if items@.len() > 0 {
            Some(items@[0])
        } else {
            None
        },
        _ => None,
    }
}

pub open spec fn as_str(o: Option<Json>) -> Option<Seq<char>> {
    match o {
        Some(Json::String { value, .. }) => Some(value@),
        _ => None,
    }
}

pub open spec fn as_i64(o: Option<Json>) -> Option<i64> {
    match o {
        Some(Json::Number { number, .. }) => number.spec_as_i64(),
        _ => None,
    }
}

pub open spec fn as_bool(o: Option<Json>) -> Option<bool> {
    match o {
        Some(Json::Bool { flag, .. }) => Some(flag),
        _ => None,
    }
}

pub open spec fn as_array(o: Option<Json>) -> Option<Seq<Json>> {
    match o {
        Some(Json::Array { items, .. }) => Some(items@),
        _ => None,
    }
}

/// The characters of an optional string.
pub open spec fn opt_chars(o: Option<String>) -> Option<Seq<char>> {
    match o {
        Some(s) => Some(s@),
        None => None,
    }
}

/// The compact text of a node.
pub open spec fn text_of(j: Json) -> Seq<char> {
    match j {
        Json::Null { text } => text@,
        Json::Bool { text, .. } => text@,
        Json::Number { text, .. } => text@,
        Json::String { text, .. } => text@,
        Json::Array { text, .. } => text@,
        Json::Object { text, .. } => text@,
    }
}

/// Index of the first member named `key`, or -1.
pub open spec fn member_index(members: Seq<(String, Json)>, key: Seq<char>) -> int
    decreases members.len(),
{
    if members.len() == 0 {
        -1
    } else if members[0].0@ == key {
        0
    } else {
        let r = member_index(members.drop_first(), key);
        if r < 0 {
            -1
        } else {
            r + 1
        }
    }
}

proof fn lemma_member_index(members: Seq<(String, Json)>, key: Seq<char>)
    ensures
        -1 <= member_index(members, key) < members.len(),
        member_index(members, key) >= 0 ==> members[member_index(members, key)].0@ == key,
        member_index(members, key) < 0 ==> member(members, key) is None,
        member_index(members, key) >= 0 ==> member(members, key) == Some(
            members[member_index(members, key)].1,
        ),
        forall|j: int|
            0 <= j < members.len() && (member_index(members, key) < 0 || j < member_index(
                members,
                key,
            )) ==> members[j].0@ != key,
    decreases members.len(),
{
    if members.len() > 0 && members[0].0@ != key {
        lemma_member_index(members.drop_first(), key);
        assert forall|j: int|
            0 <= j < members.len() && (member_index(members, key) < 0 || j < member_index(
                members,
                key,
            )) implies members[j].0@ != key by {
            if j > 0 {
                assert(members[j] == members.drop_first()[j - 1]);
            }
        }
    }
}

proof fn lemma_member_index_is(members: Seq<(String, Json)>, key: Seq<char>, i: int)
    requires
        -1 <= i < members.len(),
        i >= 0 ==> members[i].0@ == key,
        forall|j: int| 0 <= j < members.len() && (i < 0 || j < i) ==> members[j].0@ != key,
    ensures
        member_index(members, key) == i,
{
    lemma_member_index(members, key);
    let k = member_index(members, key);
    if k != i {
        if k >= 0 && (i < 0 || k < i) {
            assert(members[k].0@ != key);
        } else {
            assert(members[i].0@ != key);
        }
    }
}

/// Position of the first member named `key`.
fn find_member(members: &Vec<(String, Json)>, key: &str) -> (r: Option<usize>)
    ensures
        match r {
            Some(i) => i < members@.len() && member_index(members@, key@) == i,
            None => member_index(members@, key@) < 0,
        },
{
    let mut i: usize = 0;
    while i < members.len()
        invariant
            0 <= i <= members@.len(),
            forall|j: int| 0 <= j < i ==> members@[j].0@ != key@,
        decreases members@.len() - i,
    {
        if str_eq(members[i].0.as_str(), key) {
            proof {
                lemma_member_index_is(members@, key@, i as int);
            }
            return Some(i);
        }
        i = i + 1;
    }
    proof {
        lemma_member_index_is(members@, key@, -1);
    }
    None
}

impl Json {
    /// The value of member `key` when this is an object that has one.
    pub fn get(&self, key: &str) -> (r: Option<&Json>)
        ensures
            match r {
                Some(x) => get(*self, key@) == Some(*x),
                None => get(*self, key@) is None,
            },
    {
        match self {
            Json::Object { members, .. } => {
                proof {
                    lemma_member_index(members@, key@);
                }
                match find_member(members, key) {
                    Some(i) => Some(&members[i].1),
                    None => None,
                }
            },
            _ => None,
        }
    }

    /// Takes the value of member `key` out of an object.
    pub fn into_member(self, key: &str) -> (r: Option<Json>)
        ensures
            r == get(self, key@),
    {
        match self {
            Json::Object { members, .. } => {
                proof {
                    lemma_member_index(members@, key@);
                }
                match find_member(&members, key) {
                    Some(i) => {
                        let mut members = members;
                        Some(members.remove(i).1)
                    },
                    None => None,
                }
            },
            _ => None,
        }
    }

    /// The JSON pointer step `0`: member `"0"` of an object, first item of an array.
    pub fn first_child(&self) -> (r: Option<&Json>)
        ensures
            match r {
                Some(x) => first_child(*self) == Some(*x),
                None => first_child(*self) is None,
            },
    {
        match self {
            Json::Object { .. } => self.get("0"),
            Json::Array { items, .. } => if items.len() > 0 {
                Some(&items[0])
            } else {
                None
            },
            _ => None,
        }
    }

    /// The compact text of this node.
    pub fn text(&self) -> (r: &String)
        ensures
            r@ == text_of(*self),
    {
        match self {
            Json::Null { text } => text,
            Json::Bool { text, .. } => text,
            Json::Number { text, .. } => text,
            Json::String { text, .. } => text,
            Json::Array { text, .. } => text,
            Json::Object { text, .. } => text,
        }
    }

    /// The text of member `key` when it is a string.
    pub fn get_str(&self, key: &str) -> (r: Option<String>)
        ensures
            opt_chars(r) == as_str(get(*self, key@)),
    {
        match self.get(key) {
            Some(Json::String { value, .. }) => Some(value.clone()),
            _ => None,
        }
    }

    /// Member `key` when it is an integer that fits an `i64`.
    pub fn get_i64(&self, key: &str) -> (r: Option<i64>)
        ensures
            r == as_i64(get(*self, key@)),
    {
        match self.get(key) {
            Some(Json::Number { number, .. }) => number.as_i64(),
            _ => None,
        }
    }

    /// Whether this node is a string; and its text if so.
    pub fn str_value(&self) -> (r: Option<&String>)
        ensures
            match r {
                Some(s) => as_str(Some(*self)) == Some(s@),
                None => as_str(Some(*self)) is None,
            },
    {
        match self {
            Json::String { value, .. } => Some(value),
            _ => None,
        }
    }
}

/// The field of a struct read from `v`: member `key` of an object, or item `index`
/// of an array (the two forms in which a struct can be written).
pub open spec fn struct_field(v: Json, key: Seq<char>, index: int) -> Option<Json> {
    match v {
        Json::Object { members, .. } => member(members@, key),
        Json::Array { items, .. } => if 0 <= index < items@.len() {
            Some(items@[index])
        } else {
            None
        },
        _ => None,
    }
}

/// Whether `v` has the form of a struct of `n` fields: an object, or an array of
/// exactly `n` items.
pub open spec fn struct_shape(v: Json, n: int) -> bool {
    match v {
        Json::Object { .. } => true,
        Json::Array { items, .. } => items@.len() == n,
        _ => false,
    }
}

/// An optional string field as read: absent or null gives `Some(None)`, a string
/// gives its text, anything else is an error (`None`).
pub open spec fn opt_string_field(o: Option<Json>) -> Option<Option<Seq<char>>> {
    match o {
        None => Some(None),
        Some(Json::Null { .. }) => Some(None),
        Some(Json::String { value, .. }) => Some(Some(value@)),
        _ => None,
    }
}

/// An optional `i64` field as read: absent or null gives `Some(None)`, an integer
/// that fits gives its value, anything else is an error (`None`).
pub open spec fn opt_i64_field(o: Option<Json>) -> Option<Option<i64>> {
    match o {
        None => Some(None),
        Some(Json::Null { .. }) => Some(None),
        Some(Json::Number { number, .. }) => match number.spec_as_i64() {
            Some(i) => Some(Some(i)),
            None => None,
        },
        _ => None,
    }
}

/// Reads an optional string field; `Err` when the value is neither null nor a string.
pub fn read_opt_string(o: Option<&Json>) -> (r: Result<Option<String>, ()>)
    ensures
        match r {
            Ok(v) => opt_string_field(
                match o {
                    Some(j) => Some(*j),
                    None => None,
                },
            ) == Some(opt_chars(v)),
            Err(_) => opt_string_field(
                match o {
                    Some(j) => Some(*j),
                    None => None,
                },
            ) is None,
        },
{
    match o {
        None => Ok(None),
        Some(Json::Null { .. }) => Ok(None),
        Some(Json::String { value, .. }) => Ok(Some(value.clone())),
        _ => Err(()),
    }
}

/// Reads an optional `i64` field; `Err` when the value is neither null nor an
/// integer that fits.
pub fn read_opt_i64(o: Option<&Json>) -> (r: Result<Option<i64>, ()>)
    ensures
        match r {
            Ok(v) => opt_i64_field(
                match o {
                    Some(j) => Some(*j),
                    None => None,
                },
            ) == Some(v),
            Err(_) => opt_i64_field(
                match o {
                    Some(j) => Some(*j),
                    None => None,
                },
            ) is None,
        },
{
    match o {
        None => Ok(None),
        Some(Json::Null { .. }) => Ok(None),
        Some(Json::Number { number, .. }) => match number.as_i64() {
            Some(i) => Ok(Some(i)),
            None => Err(()),
        },
        _ => Err(()),
    }
}

impl Json {
    /// The field of a struct read from this value: member `key` of an object, or
    /// item `index` of an array.
    pub fn struct_field(&self, key: &str, index: usize) -> (r: Option<&Json>)
        ensures
            match r {
                Some(x) => struct_field(*self, key@, index as int) == Some(*x),
                None => struct_field(*self, key@, index as int) is None,
            },
    {
        match self {
            Json::Object { .. } => self.get(key),
            Json::Array { items, .. } => if index < items.len() {
                Some(&items[index])
            } else {
                None
            },
            _ => None,
        }
    }

    /// Takes the field of a struct out of this value: member `key` of an object, or
    /// item `index` of an array.
    pub fn into_struct_field(self, key: &str, index: usize) -> (r: Option<Json>)
        ensures
            r == struct_field(self, key@, index as int),
    {
        match self {
            Json::Object { members, text } => Json::Object { members, text }.into_member(key),
            Json::Array { items, .. } => if index < items.len() {
                let mut items = items;
                Some(items.remove(index))
            } else {
                None
            },
            _ => None,
        }
    }

    /// Whether this value has the form of a struct of `n` fields.
    pub fn has_struct_shape(&self, n: usize) -> (r: bool)
        ensures
            r == struct_shape(*self, n as int),
    {
        match self {
            Json::Object { .. } => true,
            Json::Array { items, .. } => items.len() == n,
            _ => false,
        }
    }
}

/// The mathematical value of a produced JSON document.
pub enum JsonModel {
    Null,
    Bool(bool),
    Number(JsonNumber),
    String(Seq<char>),
    Array(Seq<JsonModel>),
    Object(Seq<(Seq<char>, JsonModel)>),
}

/// A JSON document produced by the library.
#[derive(Debug)]
pub enum JsonValue {
    Null,
    Bool(bool),
    Number(JsonNumber),
    String(String),
    Array(Vec<JsonValue>),
    Object(Vec<(String, JsonValue)>),
}

pub open spec fn models(items: Seq<JsonValue>) -> Seq<JsonModel>
    decreases items,
{
    if items.len() == 0 {
        Seq::empty()
    } else {
        models(items.drop_last()).push(model(items.last()))
    }
}

pub open spec fn member_models(members: Seq<(String, JsonValue)>) -> Seq<(Seq<char>, JsonModel)>
    decreases members,
{
    if members.len() == 0 {
        Seq::empty()
    } else {
        member_models(members.drop_last()).push((members.last().0@, model(members.last().1)))
    }
}

/// The mathematical value of a produced document.
pub open spec fn model(v: JsonValue) -> JsonModel
    decreases v,
{
    match v {
        JsonValue::Null => JsonModel::Null,
        JsonValue::Bool(b) => JsonModel::Bool(b),
        JsonValue::Number(n) => JsonModel::Number(n),
        JsonValue::String(s) => JsonModel::String(s@),
        JsonValue::Array(items) => JsonModel::Array(models(items@)),
        JsonValue::Object(members) => JsonModel::Object(member_models(members@)),
    }
}

pub proof fn lemma_models(s: Seq<JsonValue>)
    ensures
        models(s).len() == s.len(),
        forall|i: int| 0 <= i < s.len() ==> #[trigger] models(s)[i] == model(s[i]),
    decreases s.len(),
{
    if s.len() > 0 {
        lemma_models(s.drop_last());
    }
}

pub proof fn lemma_member_models(s: Seq<(String, JsonValue)>)
    ensures
        member_models(s).len() == s.len(),
        forall|i: int|
            0 <= i < s.len() ==> #[trigger] member_models(s)[i] == (s[i].0@, model(s[i].1)),
    decreases s.len(),
{
    if s.len() > 0 {
        lemma_member_models(s.drop_last());
    }
}

/// A JSON string.
pub fn json_string(s: &str) -> (v: JsonValue)
    ensures
        model(v) == JsonModel::String(s@),
{
    JsonValue::String(s.to_owned())
}

/// A JSON object with the given members, in order.
pub fn json_object(members: Vec<(String, JsonValue)>) -> (v: JsonValue)
    ensures
        model(v) == JsonModel::Object(member_models(members@)),
{
    JsonValue::Object(members)
}

/// An object member.
pub fn json_member(key: &str, value: JsonValue) -> (m: (String, JsonValue))
    ensures
        m.0@ == key@,
        m.1 == value,
{
    (key.to_owned(), value)
}

/// Appends a member `key: value` to the members of an object under construction.
pub fn push_member(members: &mut Vec<(String, JsonValue)>, key: &str, value: JsonValue)
    ensures
        member_models(final(members)@) == member_models(old(members)@).push((key@, model(value))),
{
    let ghost before = members@;
    members.push((key.to_owned(), value));
    assert(members@.drop_last() =~= before);
}

/// Appends an item to the items of an array under construction.
pub fn push_item(items: &mut Vec<JsonValue>, value: JsonValue)
    ensures
        models(final(items)@) == models(old(items)@).push(model(value)),
{
    let ghost before = items@;
    items.push(value);
    assert(items@.drop_last() =~= before);
}

/// An object with one member.
pub open spec fn single(key: Seq<char>, value: JsonModel) -> JsonModel {
    JsonModel::Object(seq![(key, value)])
}

/// The object `{key: value}`.
pub fn json_single(key: &str, value: JsonValue) -> (v: JsonValue)
    ensures
        model(v) == single(key@, model(value)),
{
    let mut members: Vec<(String, JsonValue)> = Vec::new();
    push_member(&mut members, key, value);
    assert(member_models(members@) =~= seq![(key@, model(value))]);
    JsonValue::Object(members)
}

/// A non-negative integer.
pub fn json_uint(n: u64) -> (v: JsonValue)
    ensures
        model(v) == JsonModel::Number(JsonNumber::PosInt(n)),
{
    JsonValue::Number(JsonNumber::PosInt(n))
}

} // verus!
