//! JSON documents as a tree of the library's own, read from text by `serde_json`.

use vstd::prelude::*;

verus! {

/// A JSON document.
#[derive(Debug, PartialEq, Eq)]
pub enum Json {
    Null,
    Bool(bool),
    /// A number, kept as the text that renders it.
    Number(String),
    Text(String),
    Array(Vec<Json>),
    /// The members of an object, each a key with its value.
    Object(Vec<(String, Json)>),
}

/// A JSON document as a mathematical value.
pub enum JsonView {
    Null,
    Bool(bool),
    Number(Seq<char>),
    Text(Seq<char>),
    Array(Seq<JsonView>),
    Object(Seq<(Seq<char>, JsonView)>),
}

/// The mathematical value of a document.
pub open spec fn json_view(doc: Json) -> JsonView
    decreases doc,
{
    match doc {
        Json::Null => JsonView::Null,
        Json::Bool(b) => JsonView::Bool(b),
        Json::Number(n) => JsonView::Number(n@),
        Json::Text(s) => JsonView::Text(s@),
        Json::Array(items) => JsonView::Array(
            Seq::new(
                items.len() as nat,
                |i: int|
                    if 0 <= i < items.len() {
                        json_view(items[i])
                    } else {
                        JsonView::Null
                    },
            ),
        ),
        Json::Object(members) => JsonView::Object(
            Seq::new(
                members.len() as nat,
                |i: int|
                    if 0 <= i < members.len() {
                        (members[i].0@, json_view(members[i].1))
                    } else {
                        (Seq::empty(), JsonView::Null)
                    },
            ),
        ),
    }
}

impl View for Json {
    type V = JsonView;

    open spec fn view(&self) -> JsonView {
        json_view(*self)
    }
}

/// The document of an optional document.
pub open spec fn doc_view(doc: Option<Json>) -> Option<JsonView> {
    match doc {
        Some(d) => Some(d@),
        None => None,
    }
}

/// The `serde_json::Value` type: a parsed document as `serde_json` holds it.
/// What a value holds is known through [`value_view`] alone.
#[verifier::external_type_specification]
#[verifier::external_body]
pub struct ExValue(serde_json::Value);

/// The document that `text` denotes, or `None` where `text` is not well-formed JSON.
pub uninterp spec fn json_of(text: Seq<char>) -> Option<JsonView>;

/// The value of the first of `members` whose key is `key`.
pub open spec fn find(members: Seq<(Seq<char>, JsonView)>, key: Seq<char>) -> Option<JsonView>
    decreases members.len(),
{
    if members.len() == 0 {
        None
    } else if members[0].0 == key {
        Some(members[0].1)
    } else {
        find(members.drop_first(), key)
    }
}

/// The member `key` of `doc`, where `doc` is an object that has one.
pub open spec fn member(doc: JsonView, key: Seq<char>) -> Option<JsonView> {
    match doc {
        JsonView::Object(members) => find(members, key),
        _ => None,
    }
}

/// The text of `doc`, where `doc` is a string.
pub open spec fn text(doc: JsonView) -> Option<Seq<char>> {
    match doc {
        JsonView::Text(s) => Some(s),
        _ => None,
    }
}

/// The text of the member `key` of `doc`, where `doc` is an object whose member
/// `key` is a string.
pub open spec fn text_member(doc: JsonView, key: Seq<char>) -> Option<Seq<char>> {
    match member(doc, key) {
        Some(inner) => text(inner),
        None => None,
    }
}

/// The document that a `serde_json::Value` holds.
pub uninterp spec fn value_view(value: serde_json::Value) -> JsonView;

/// `serde_json::from_str` at type `serde_json::Value`: the parsed value, whose
/// document depends on the text alone, or `None` where the parser reports an
/// error.
#[verifier::external_body]
fn read_value(text: &str) -> (value: Option<serde_json::Value>)
    ensures
        match value {
            Some(v) => json_of(text@) == Some(value_view(v)),
            None => json_of(text@) is None,
        },
{
    serde_json::from_str::<serde_json::Value>(text).ok()
}

/// Moves a `serde_json::Value` into a [`Json`], variant by variant, and so
/// keeps the document; a number becomes the text that `serde_json` displays
/// for it.
#[verifier::external_body]
fn json_of_value(value: serde_json::Value) -> (doc: Json)
    ensures
        doc@ == value_view(value),
{
    match value {
        serde_json::Value::Null => Json::Null,
        serde_json::Value::Bool(b) => Json::Bool(b),
        serde_json::Value::Number(n) => Json::Number(n.to_string()),
        serde_json::Value::String(s) => Json::Text(s),
        serde_json::Value::Array(items) => Json::Array(
            items.into_iter().map(json_of_value).collect(),
        ),
        serde_json::Value::Object(members) => Json::Object(
            members.into_iter().map(|(key, item)| (key, json_of_value(item))).collect(),
        ),
    }
}

/// The members of an object as mathematical values.
pub open spec fn members_view(members: Vec<(String, Json)>) -> Seq<(Seq<char>, JsonView)> {
    Seq::new(members.len() as nat, |i: int| (members[i].0@, members[i].1@))
}

/// The view of an object holds the views of its members, in their order.
pub proof fn lemma_object_view(members: Vec<(String, Json)>)
    ensures
        Json::Object(members)@ == JsonView::Object(members_view(members)),
{
    assert(Json::Object(members)@->Object_0 =~= members_view(members));
}

/// The value of the first of `members` whose key is `key`.
fn find_in<'a>(members: &'a Vec<(String, Json)>, key: &str) -> (found: Option<&'a Json>)
    ensures
        match found {
            Some(inner) => find(members_view(*members), key@) == Some(inner@),
            None => find(members_view(*members), key@) is None,
        },
{
    let ghost all = members_view(*members);
    let wanted = String::from_str(key);
    let mut i: usize = 0;
    assert(all.skip(0) =~= all);
    while i < members.len()
        invariant
            i <= members.len(),
            wanted@ == key@,
            all == members_view(*members),
            find(all, key@) == find(all.skip(i as int), key@),
        decreases members.len() - i,
    {
        let ghost rest = all.skip(i as int);
        assert(rest.drop_first() =~= all.skip(i as int + 1));
        if members[i].0 == wanted {
            return Some(&members[i].1);
        }
        i = i + 1;
    }
    None
}

impl Json {
    /// Reads `text` as a JSON document.
    pub fn parse(text: &str) -> (doc: Option<Json>)
        ensures
            doc_view(doc) == json_of(text@),
    {
        match read_value(text) {
            Some(value) => Some(json_of_value(value)),
            None => None,
        }
    }

    /// The member `key` of an object: the value of the first member with that key.
    pub fn get(&self, key: &str) -> (found: Option<&Json>)
        ensures
            match found {
                Some(inner) => member(self@, key@) == Some(inner@),
                None => member(self@, key@) is None,
            },
    {
        match self {
            Json::Object(members) => {
                proof {
                    lemma_object_view(*members);
                }
                find_in(members, key)
            },
            _ => None,
        }
    }

    /// The text of a string.
    pub fn as_text(&self) -> (found: Option<&String>)
        ensures
            match found {
                Some(s) => text(self@) == Some(s@),
                None => text(self@) is None,
            },
    {
        match self {
            Json::Text(s) => Some(s),
            _ => None,
        }
    }

    /// The text of the member `key`, where that member is a string.
    pub fn text_at(&self, key: &str) -> (found: Option<&String>)
        ensures
            match found {
                Some(s) => text_member(self@, key@) == Some(s@),
                None => text_member(self@, key@) is None,
            },
    {
        match self.get(key) {
            Some(inner) => inner.as_text(),
            None => None,
        }
    }

    /// Whether this is `null`.
    pub fn is_null(&self) -> (null: bool)
        ensures
            null == (self@ is Null),
    {
        match self {
            Json::Null => true,
            _ => false,
        }
    }

    /// Whether this is an object.
    pub fn is_object(&self) -> (object: bool)
        ensures
            object == (self@ is Object),
    {
        match self {
            Json::Object(_) => true,
            _ => false,
        }
    }
}

} // verus!
