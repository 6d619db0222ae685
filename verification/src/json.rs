//! JSON documents as values of the library.
//!
//! The engine reads and writes JSON at the process boundary. A document is
//! held as a [`Json`] value, so that what the engine decides on (members,
//! strings, unsigned integers) is plain data; reading and writing the text
//! itself is left to `serde_json`.

use vstd::prelude::*;
use crate::text::{opt_view, str_eq};

verus! {

/// A number of a JSON document.
#[derive(Clone, Debug, PartialEq, Eq)]
pub struct JsonNumber {
    /// The number, where it is a non-negative integer below 2^64.
    pub unsigned: Option<u64>,
    /// The number as the document writes it.
    pub text: String,
}

/// A JSON document.
#[derive(Debug, PartialEq, Eq)]
pub enum Json {
    Null,
    Bool(bool),
    Number(JsonNumber),
    Text(String),
    Array(Vec<Json>),
    Object(Vec<(String, Json)>),
}

/// The mathematical value of a JSON document.
pub enum JsonView {
    Null,
    Bool(bool),
    Number { unsigned: Option<u64>, text: Seq<char> },
    Text(Seq<char>),
    Array(Seq<JsonView>),
    Object(Seq<(Seq<char>, JsonView)>),
}

/// The mathematical value of `doc`.
pub open spec fn json_view(doc: Json) -> JsonView
    decreases doc,
{
    match doc {
        Json::Null => JsonView::Null,
        Json::Bool(b) => JsonView::Bool(b),
        Json::Number(n) => JsonView::Number { unsigned: n.unsigned, text: n.text@ },
        Json::Text(s) => JsonView::Text(s@),
        Json::Array(items) => JsonView::Array(
            Seq::new(
                items.len() as nat,
                |i: int|
                    if 0 <= i < items.len() {
                        json_view(items[i])
                    } else {
                        JsonView::Null
                    },
            ),
        ),
        Json::Object(members) => JsonView::Object(
            Seq::new(
                members.len() as nat,
                |i: int|
                    if 0 <= i < members.len() {
                        (members[i].0@, json_view(members[i].1))
                    } else {
                        (Seq::empty(), JsonView::Null)
                    },
            ),
        ),
    }
}

impl View for Json {
    type V = JsonView;

    open spec fn view(&self) -> JsonView {
        json_view(*self)
    }
}

impl DeepView for Json {
    type V = JsonView;

    open spec fn deep_view(&self) -> JsonView {
        self@
    }
}

/// The value of the first member at or after `from` whose name is `key`.
pub open spec fn find_member(members: Seq<(Seq<char>, JsonView)>, key: Seq<char>, from: int) -> Option<
    JsonView,
>
    decreases members.len() - from,
{
    if from < 0 || from >= members.len() {
        None
    } else if members[from].0 == key {
        Some(members[from].1)
    } else {
        find_member(members, key, from + 1)
    }
}

impl JsonView {
    /// The member `key` of an object; nothing for any other value.
    pub open spec fn get(self, key: Seq<char>) -> Option<JsonView> {
        match self {
            JsonView::Object(members) => find_member(members, key, 0),
            _ => None,
        }
    }

    /// The characters of a string; nothing for any other value.
    pub open spec fn as_text(self) -> Option<Seq<char>> {
        match self {
            JsonView::Text(s) => Some(s),
            _ => None,
        }
    }

    /// A number that is a non-negative integer below 2^64; nothing for any
    /// other value.
    pub open spec fn as_unsigned(self) -> Option<u64> {
        match self {
            JsonView::Number { unsigned, text } => unsigned,
            _ => None,
        }
    }

    /// The items of an array; nothing for any other value.
    pub open spec fn as_items(self) -> Option<Seq<JsonView>> {
        match self {
            JsonView::Array(items) => Some(items),
            _ => None,
        }
    }

    /// The string member `key` of an object.
    pub open spec fn text_of(self, key: Seq<char>) -> Option<Seq<char>> {
        match self.get(key) {
            Some(v) => v.as_text(),
            None => None,
        }
    }

    /// The unsigned integer member `key` of an object.
    pub open spec fn unsigned_of(self, key: Seq<char>) -> Option<u64> {
        match self.get(key) {
            Some(v) => v.as_unsigned(),
            None => None,
        }
    }
}

/// The view of an optional document.
pub open spec fn opt_json_view(o: Option<&Json>) -> Option<JsonView> {
    match o {
        Some(j) => Some(j@),
        None => None,
    }
}

/// The view of an optional string slice.
pub open spec fn opt_str_view(o: Option<&str>) -> Option<Seq<char>> {
    match o {
        Some(s) => Some(s@),
        None => None,
    }
}

impl Json {
    /// The member `key` of an object.
    pub fn get(&self, key: &str) -> (r: Option<&Json>)
        ensures
            opt_json_view(r) == self@.get(key@),
    {
        match self {
            Json::Object(members) => {
                let mut i: usize = 0;
                let ghost model = self@->Object_0;
                assert(self@ == JsonView::Object(model));
                assert(model.len() == members.len());
                assert(forall|k: int|
                    0 <= k < members.len() ==> model[k] == (members[k].0@, members[k].1@));
                while i < members.len()
                    invariant
                        i <= members.len(),
                        model.len() == members.len(),
                        forall|k: int|
                            0 <= k < members.len() ==> model[k] == (members[k].0@, members[k].1@),
                        self@.get(key@) == find_member(model, key@, i as int),
                    decreases members.len() - i,
                {
                    if str_eq(members[i].0.as_str(), key) {
                        return Some(&members[i].1);
                    }
                    i += 1;
                }
                None
            },
            _ => None,
        }
    }

    /// The characters of a string.
    pub fn as_str(&self) -> (r: Option<&str>)
        ensures
            opt_str_view(r) == self@.as_text(),
    {
        match self {
            Json::Text(s) => Some(s.as_str()),
            _ => None,
        }
    }

    /// A number that is a non-negative integer below 2^64.
    pub fn as_u64(&self) -> (r: Option<u64>)
        ensures
            r == self@.as_unsigned(),
    {
        match self {
            Json::Number(n) => n.unsigned,
            _ => None,
        }
    }

    /// The items of an array.
    pub fn as_array(&self) -> (r: Option<&Vec<Json>>)
        ensures
            match r {
                Some(items) => self@.as_items() == Some(items.deep_view()),
                None => self@.as_items() is None,
            },
    {
        match self {
            Json::Array(items) => {
                assert(items.deep_view() =~= self@->Array_0);
                Some(items)
            },
            _ => None,
        }
    }

    /// The string member `key` of an object.
    pub fn text_of(&self, key: &str) -> (r: Option<&str>)
        ensures
            opt_str_view(r) == self@.text_of(key@),
    {
        match self.get(key) {
            Some(v) => v.as_str(),
            None => None,
        }
    }

    /// The unsigned integer member `key` of an object.
    pub fn unsigned_of(&self, key: &str) -> (r: Option<u64>)
        ensures
            r == self@.unsigned_of(key@),
    {
        match self.get(key) {
            Some(v) => v.as_u64(),
            None => None,
        }
    }
}

#[verifier::external_type_specification]
#[verifier::external_body]
pub struct ExValue(serde_json::Value);

/// The document that a text is read as, where it is well-formed JSON.
pub uninterp spec fn json_document(text: Seq<char>) -> Option<JsonView>;

/// The text of a document on one line.
pub uninterp spec fn compact_text(doc: JsonView) -> Option<Seq<char>>;

/// The indented text of a document.
pub uninterp spec fn pretty_text(doc: JsonView) -> Option<Seq<char>>;

/// The view of an optional owned document.
pub open spec fn opt_doc_view(o: Option<Json>) -> Option<JsonView> {
    match o {
        Some(j) => Some(j@),
        None => None,
    }
}

/// Copies a `serde_json::Value` into a [`Json`], member by member. A number
/// keeps `Number::as_u64` and the text that `Number` displays.
#[verifier::external_body]
fn json_from_value(v: &serde_json::Value) -> Json {
    match v {
        serde_json::Value::Null => Json::Null,
        serde_json::Value::Bool(b) => Json::Bool(*b),
        serde_json::Value::Number(n) => Json::Number(
            JsonNumber { unsigned: n.as_u64(), text: n.to_string() },
        ),
        serde_json::Value::String(s) => Json::Text(s.clone()),
        serde_json::Value::Array(a) => Json::Array(a.iter().map(json_from_value).collect()),
        serde_json::Value::Object(m) => Json::Object(
            m.iter().map(|(k, v)| (k.clone(), json_from_value(v))).collect(),
        ),
    }
}

/// Copies a [`Json`] into a `serde_json::Value`, member by member. A number
/// is read back from its text; one whose text is no JSON number becomes null.
#[verifier::external_body]
fn json_to_value(doc: &Json) -> serde_json::Value {
    match doc {
        Json::Null => serde_json::Value::Null,
        Json::Bool(b) => serde_json::Value::Bool(*b),
        Json::Number(n) => n.text.parse::<serde_json::Number>().map(
            serde_json::Value::Number,
        ).unwrap_or(serde_json::Value::Null),
        Json::Text(s) => serde_json::Value::String(s.clone()),
        Json::Array(a) => serde_json::Value::Array(a.iter().map(json_to_value).collect()),
        Json::Object(m) => serde_json::Value::Object(
            m.iter().map(|(k, v)| (k.clone(), json_to_value(v))).collect(),
        ),
    }
}

/// `serde_json::from_str`: the document read from `text`, which depends on
/// the text alone; nothing where the text is not well-formed JSON.
#[verifier::external_body]
fn read_document(text: &str) -> (r: Option<Json>)
    ensures
        opt_doc_view(r) == json_document(text@),
{
    serde_json::from_str::<serde_json::Value>(text).ok().map(|v| json_from_value(&v))
}

/// `serde_json::to_string`: the text of `doc` on one line, which depends on
/// the document alone. Writing a `Value` into memory does not fail, so
/// there always is a text.
#[verifier::external_body]
fn write_compact(doc: &Json) -> (r: Option<String>)
    ensures
        r is Some,
        opt_view(r) == compact_text(doc@),
{
    serde_json::to_string(&json_to_value(doc)).ok()
}

/// `serde_json::to_string_pretty`: the indented text of `doc`, which depends
/// on the document alone. Writing a `Value` into memory does not fail, so
/// there always is a text.
#[verifier::external_body]
fn write_pretty(doc: &Json) -> (r: Option<String>)
    ensures
        r is Some,
        opt_view(r) == pretty_text(doc@),
{
    serde_json::to_string_pretty(&json_to_value(doc)).ok()
}

impl Json {
    /// Reads a document from its text.
    pub fn parse(text: &str) -> (r: Option<Json>)
        ensures
            opt_doc_view(r) == json_document(text@),
    {
        read_document(text)
    }

    /// The text of the document on one line. There always is one.
    pub fn to_text(&self) -> (r: Option<String>)
        ensures
            r is Some,
            opt_view(r) == compact_text(self@),
    {
        write_compact(self)
    }

    /// The indented text of the document. There always is one.
    pub fn to_pretty_text(&self) -> (r: Option<String>)
        ensures
            r is Some,
            opt_view(r) == pretty_text(self@),
    {
        write_pretty(self)
    }
}

impl Json {
    /// A copy of the document.
    pub fn duplicate(&self) -> (copy: Json)
        ensures
            copy@ == self@,
        decreases self,
    {
        match self {
            Json::Null => Json::Null,
            Json::Bool(b) => Json::Bool(*b),
            Json::Number(n) => Json::Number(
                JsonNumber { unsigned: n.unsigned, text: n.text.clone() },
            ),
            Json::Text(s) => Json::Text(s.clone()),
            Json::Array(items) => {
                let mut out: Vec<Json> = Vec::new();
                let mut i: usize = 0;
                while i < items.len()
                    invariant
                        i <= items.len(),
                        self is Array,
                        self->Array_0 == *items,
                        out.len() == i,
                        forall|k: int| 0 <= k < i ==> out[k]@ == items[k]@,
                    decreases items.len() - i,
                {
                    proof {
                        assert(self->Array_0 == *items);
                        assert(decreases_to!(self->Array_0 => self->Array_0[i as int]));
                    }
                    let item = items[i].duplicate();
                    out.push(item);
                    i += 1;
                }
                assert(Json::Array(out)@->Array_0 =~= self@->Array_0);
                Json::Array(out)
            },
            Json::Object(members) => {
                let mut out: Vec<(String, Json)> = Vec::new();
                let mut i: usize = 0;
                while i < members.len()
                    invariant
                        i <= members.len(),
                        self is Object,
                        self->Object_0 == *members,
                        out.len() == i,
                        forall|k: int|
                            0 <= k < i ==> out[k].0@ == members[k].0@ && out[k].1@ == members[k].1@,
                    decreases members.len() - i,
                {
                    proof {
                        assert(self->Object_0 == *members);
                        assert(decreases_to!(self->Object_0 => self->Object_0[i as int]));
                    }
                    let value = members[i].1.duplicate();
                    out.push((members[i].0.clone(), value));
                    i += 1;
                }
                assert(Json::Object(out)@->Object_0 =~= self@->Object_0);
                Json::Object(out)
            },
        }
    }

    /// The object without members.
    pub fn empty_object() -> (doc: Json)
        ensures
            doc@ == JsonView::Object(Seq::empty()),
    {
        let doc = Json::Object(Vec::new());
        assert(doc@->Object_0 =~= Seq::empty());
        doc
    }
}

} // verus!
