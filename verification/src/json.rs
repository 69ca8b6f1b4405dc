//! JSON documents as plain trees.

use serde_json::Value;
use vstd::prelude::*;

use crate::text::str_equal;

verus! {

/// A JSON document as a mathematical tree.
///
/// Object members keep the order in which the parser's map yields them, and a
/// number is held by its decimal text.
pub enum JsonSpec {
    Null,
    Bool(bool),
    Number(Seq<char>),
    Text(Seq<char>),
    Array(Seq<JsonSpec>),
    Object(Seq<(Seq<char>, JsonSpec)>),
}

/// A JSON document held in memory.
#[derive(Debug)]
pub enum Json {
    Null,
    Bool(bool),
    Number(String),
    Text(String),
    Array(Vec<Json>),
    Object(Vec<(String, Json)>),
}

/// The members of an object: the key of each entry with the document that
/// stands at its place in `values`.
pub open spec fn keyed(entries: Seq<(String, Json)>, values: Seq<JsonSpec>) -> Seq<
    (Seq<char>, JsonSpec),
> {
    Seq::new(entries.len(), |i: int| (entries[i].0@, values[i]))
}

impl View for Json {
    type V = JsonSpec;

    open spec fn view(&self) -> JsonSpec
        decreases self,
    {
        match self {
            Json::Null => JsonSpec::Null,
            Json::Bool(b) => JsonSpec::Bool(*b),
            Json::Number(n) => JsonSpec::Number(n@),
            Json::Text(s) => JsonSpec::Text(s@),
            Json::Array(items) => JsonSpec::Array(
                Seq::new(
                    items@.len(),
                    |i: int|
                        if 0 <= i < items@.len() {
                            items@[i]@
                        } else {
                            JsonSpec::Null
                        },
                ),
            ),
            Json::Object(entries) => JsonSpec::Object(
                keyed(
                    entries@,
                    Seq::new(
                        entries@.len(),
                        |i: int|
                            if 0 <= i < entries@.len() {
                                entries@[i].1@
                            } else {
                                JsonSpec::Null
                            },
                    ),
                ),
            ),
        }
    }
}

/// The documents of a list of values, in order.
pub open spec fn items_view(items: Seq<Json>) -> Seq<JsonSpec> {
    Seq::new(items.len(), |i: int| items[i]@)
}

/// The members of an object, each as its key and its document, in order.
pub open spec fn entries_view(entries: Seq<(String, Json)>) -> Seq<(Seq<char>, JsonSpec)> {
    Seq::new(entries.len(), |i: int| (entries[i].0@, entries[i].1@))
}

/// The view of an array is the array of its items' views.
pub proof fn lemma_array_view(items: Vec<Json>)
    ensures
        Json::Array(items)@ == JsonSpec::Array(items_view(items@)),
{
    assert(Json::Array(items)@->Array_0 =~= items_view(items@));
}

/// The view of an object holds its members' keys and views.
pub proof fn lemma_object_view(entries: Vec<(String, Json)>)
    ensures
        Json::Object(entries)@ == JsonSpec::Object(entries_view(entries@)),
{
    let members = Json::Object(entries)@->Object_0;
    assert(members =~= entries_view(entries@));
}

/// The value that `entries` holds under `key`: that of the first member with
/// this key.
pub open spec fn member(entries: Seq<(Seq<char>, JsonSpec)>, key: Seq<char>) -> Option<JsonSpec>
    decreases entries.len(),
{
    if entries.len() == 0 {
        None
    } else if entries[0].0 == key {
        Some(entries[0].1)
    } else {
        member(entries.drop_first(), key)
    }
}

proof fn lemma_member_skip(entries: Seq<(Seq<char>, JsonSpec)>, key: Seq<char>, i: int)
    requires
        0 <= i <= entries.len(),
        forall|k: int| 0 <= k < i ==> entries[k].0 != key,
    ensures
        member(entries, key) == member(entries.skip(i), key),
    decreases i,
{
    if i == 0 {
        assert(entries.skip(0) =~= entries);
    } else {
        lemma_member_skip(entries, key, i - 1);
        assert(entries.skip(i - 1).drop_first() =~= entries.skip(i));
    }
}

/// The view of an optional reference to a document.
pub open spec fn slot_view(slot: Option<&Json>) -> Option<JsonSpec> {
    match slot {
        Some(value) => Some(value@),
        None => None,
    }
}

/// Looks up the value that `entries` holds under `key`.
pub fn find_member<'a>(entries: &'a Vec<(String, Json)>, key: &str) -> (out: Option<&'a Json>)
    ensures
        slot_view(out) == member(entries_view(entries@), key@),
{
    let mut i: usize = 0;
    while i < entries.len()
        invariant
            i <= entries.len(),
            forall|k: int| 0 <= k < i ==> entries_view(entries@)[k].0 != key@,
        decreases entries.len() - i,
    {
        if str_equal(entries[i].0.as_str(), key) {
            proof {
                lemma_member_skip(entries_view(entries@), key@, i as int);
                assert(entries_view(entries@).skip(i as int)[0] == (
                    entries@[i as int].0@,
                    entries@[i as int].1@,
                ));
            }
            return Some(&entries[i].1);
        }
        i += 1;
    }
    proof {
        lemma_member_skip(entries_view(entries@), key@, i as int);
    }
    None
}

/// `serde_json::Value`, carried through without a look inside.
#[verifier::external_type_specification]
#[verifier::external_body]
pub struct ExValue(Value);

/// What `serde_json::from_str` makes of a text: `None` where it rejects the
/// text, else the document it builds.
pub uninterp spec fn json_document(text: Seq<char>) -> Option<JsonSpec>;

/// The tree that a `serde_json::Value` holds.
pub uninterp spec fn value_tree(value: Value) -> JsonSpec;

/// Calls `serde_json::from_str` for a `Value`. A text that the parser rejects
/// gives `None`; otherwise the value holds the document that the parser makes
/// of the text.
#[verifier::external_body]
fn parse_value(text: &str) -> (out: Option<Value>)
    ensures
        match out {
            Some(value) => json_document(text@) == Some(value_tree(value)),
            None => json_document(text@) is None,
        },
{
    match serde_json::from_str::<Value>(text) {
        Ok(value) => Some(value),
        Err(_) => None,
    }
}

/// Copies a `serde_json::Value` into a `Json`, variant by variant: a number
/// by the text that `Number`'s `Display` prints, the members of an object in
/// the order in which `Map::iter` yields them.
#[verifier::external_body]
fn from_value(value: &Value) -> (out: Json)
    ensures
        out@ == value_tree(*value),
{
    match value {
        Value::Null => Json::Null,
        Value::Bool(b) => Json::Bool(*b),
        Value::Number(n) => Json::Number(n.to_string()),
        Value::String(s) => Json::Text(s.clone()),
        Value::Array(items) => Json::Array(items.iter().map(from_value).collect()),
        Value::Object(map) => Json::Object(
            map.iter().map(|(key, item)| (key.clone(), from_value(item))).collect(),
        ),
    }
}

impl Json {
    /// Parses `text` as one JSON document.
    pub fn parse(text: &str) -> (out: Option<Json>)
        ensures
            match out {
                Some(doc) => json_document(text@) == Some(doc@),
                None => json_document(text@) is None,
            },
    {
        match parse_value(text) {
            Some(value) => Some(from_value(&value)),
            None => None,
        }
    }
}

} // verus!
