//! JSON documents as plain trees. Reading and writing JSON text is left to
//! `serde_json`; everything that inspects a document works on [`Json`].

use vstd::prelude::*;
use vstd::string::*;

verus! {

/// A JSON document held as plain values.
#[derive(Debug, PartialEq, Eq)]
pub enum Json {
    Null,
    Bool(bool),
    /// A number: `Some` when it is a non-negative integer that fits 64 bits,
    /// `None` for every other number.
    Number(Option<u64>),
    Text(String),
    List(Vec<Json>),
    /// An object: its members in document order.
    Record(Vec<(String, Json)>),
}

/// The mathematical content of a [`Json`] document.
pub enum JsonTree {
    Null,
    Bool(bool),
    Number(Option<u64>),
    Text(Seq<char>),
    List(Seq<JsonTree>),
    Record(Seq<(Seq<char>, JsonTree)>),
}

/// The tree of a document.
pub open spec fn tree_of_doc(doc: Json) -> JsonTree
    decreases doc,
{
    match doc {
        Json::Null => JsonTree::Null,
        Json::Bool(b) => JsonTree::Bool(b),
        Json::Number(n) => JsonTree::Number(n),
        Json::Text(s) => JsonTree::Text(s@),
        Json::List(items) => JsonTree::List(trees_of(items@)),
        Json::Record(members) => JsonTree::Record(member_trees_of(members@)),
    }
}

/// The trees of a sequence of documents, in order.
pub open spec fn trees_of(items: Seq<Json>) -> Seq<JsonTree>
    decreases items,
{
    if items.len() == 0 {
        Seq::empty()
    } else {
        trees_of(items.drop_last()).push(tree_of_doc(items.last()))
    }
}

/// The keys and trees of a sequence of members, in order.
pub open spec fn member_trees_of(members: Seq<(String, Json)>) -> Seq<(Seq<char>, JsonTree)>
    decreases members,
{
    if members.len() == 0 {
        Seq::empty()
    } else {
        member_trees_of(members.drop_last()).push((members.last().0@, tree_of_doc(members.last().1)))
    }
}

impl View for Json {
    type V = JsonTree;

    open spec fn view(&self) -> JsonTree {
        tree_of_doc(*self)
    }
}

/// `trees_of` keeps the length and maps each element to its tree.
pub proof fn lemma_trees_of(items: Seq<Json>)
    ensures
        trees_of(items).len() == items.len(),
        forall|i: int| 0 <= i < items.len() ==> (#[trigger] trees_of(items)[i]) == items[i]@,
    decreases items.len(),
{
    if items.len() > 0 {
        lemma_trees_of(items.drop_last());
    }
}

/// `member_trees_of` keeps the length and maps each member to its key's
/// characters and its value's tree.
pub proof fn lemma_member_trees_of(members: Seq<(String, Json)>)
    ensures
        member_trees_of(members).len() == members.len(),
        forall|i: int|
            0 <= i < members.len() ==> (#[trigger] member_trees_of(members)[i]) == (
                members[i].0@,
                members[i].1@,
            ),
    decreases members.len(),
{
    if members.len() > 0 {
        lemma_member_trees_of(members.drop_last());
    }
}

/// The value that the last member named `key` holds, if there is one.
pub open spec fn lookup(members: Seq<(Seq<char>, JsonTree)>, key: Seq<char>) -> Option<JsonTree>
    decreases members.len(),
{
    if members.len() == 0 {
        None
    } else if members.last().0 == key {
        Some(members.last().1)
    } else {
        lookup(members.drop_last(), key)
    }
}

impl JsonTree {
    /// The member of an object under `key`; `None` for a missing key and for
    /// anything that is not an object. Of two members with one key the later
    /// one counts.
    pub open spec fn member(self, key: Seq<char>) -> Option<JsonTree> {
        match self {
            JsonTree::Record(members) => lookup(members, key),
            _ => None,
        }
    }

    /// The characters of a string.
    pub open spec fn text(self) -> Option<Seq<char>> {
        match self {
            JsonTree::Text(s) => Some(s),
            _ => None,
        }
    }

    /// The value of a number that is a non-negative integer below 2^64.
    pub open spec fn natural(self) -> Option<u64> {
        match self {
            JsonTree::Number(n) => n,
            _ => None,
        }
    }

    /// The elements of an array.
    pub open spec fn list(self) -> Option<Seq<JsonTree>> {
        match self {
            JsonTree::List(items) => Some(items),
            _ => None,
        }
    }
}

/// `serde_json::Value`, any JSON value. Nothing is known of what is inside
/// one but through [`value_tree`].
#[verifier::external_type_specification]
#[verifier::external_body]
pub struct ExValue(serde_json::Value);

/// `serde_json::Error`, the reason why a text was not read. It is only told
/// from a success.
#[verifier::external_type_specification]
#[verifier::external_body]
pub struct ExJsonError(serde_json::Error);

/// The value that `serde_json` reads from a sequence of bytes, where it
/// accepts them as one JSON document.
pub uninterp spec fn parsed_value(bytes: Seq<u8>) -> Option<serde_json::Value>;

/// The tree that a `serde_json` value holds.
pub uninterp spec fn value_tree(value: serde_json::Value) -> JsonTree;

/// The `serde_json` value that is built from a tree.
pub uninterp spec fn tree_value(tree: JsonTree) -> serde_json::Value;

/// The compact JSON text of a `serde_json` value.
pub uninterp spec fn compact_text(value: serde_json::Value) -> Seq<char>;

/// The pretty-printed JSON text of a `serde_json` value.
pub uninterp spec fn pretty_text(value: serde_json::Value) -> Seq<char>;

/// `serde_json::from_slice`, reading a `serde_json::Value`: whether the bytes
/// are accepted, and as which value, depends on the bytes alone.
#[verifier::external_body]
fn read_value(bytes: &[u8]) -> (r: Result<serde_json::Value, serde_json::Error>)
    ensures
        r is Ok <==> parsed_value(bytes@) is Some,
        r matches Ok(value) ==> parsed_value(bytes@) == Some(value),
{
    serde_json::from_slice::<serde_json::Value>(bytes)
}

/// Takes a `serde_json::Value` apart, one arm for each of its variants, with
/// `Number::as_u64` for a number and the members of an object in the order
/// the map hands them out. The tree depends on the value alone.
#[verifier::external_body]
fn tree_of(value: serde_json::Value) -> (doc: Json)
    ensures
        doc@ == value_tree(value),
{
    match value {
        serde_json::Value::Null => Json::Null,
        serde_json::Value::Bool(b) => Json::Bool(b),
        serde_json::Value::Number(n) => Json::Number(n.as_u64()),
        serde_json::Value::String(s) => Json::Text(s),
        serde_json::Value::Array(a) => Json::List(a.into_iter().map(tree_of).collect()),
        serde_json::Value::Object(m) => Json::Record(
            m.into_iter().map(|(k, v)| (k, tree_of(v))).collect(),
        ),
    }
}

/// Builds a `serde_json::Value` from a document, one arm for each variant. A
/// number that is no 64-bit natural number has no value of its own and
/// becomes `null`; members are inserted into the map in order. The value
/// depends on the document's tree alone.
#[verifier::external_body]
fn value_of(doc: &Json) -> (value: serde_json::Value)
    ensures
        value == tree_value(doc@),
{
    match doc {
        Json::Null | Json::Number(None) => serde_json::Value::Null,
        Json::Bool(b) => serde_json::Value::Bool(*b),
        Json::Number(Some(n)) => serde_json::Value::Number((*n).into()),
        Json::Text(s) => serde_json::Value::String(s.clone()),
        Json::List(items) => serde_json::Value::Array(items.iter().map(value_of).collect()),
        Json::Record(members) => serde_json::Value::Object(
            members.iter().map(|m| (m.0.clone(), value_of(&m.1))).collect(),
        ),
    }
}

/// `serde_json::to_string` on a `serde_json::Value`: the text depends on the
/// value alone.
#[verifier::external_body]
fn write_compact(value: &serde_json::Value) -> (text: String)
    ensures
        text@ == compact_text(*value),
{
    serde_json::to_string(value).unwrap_or_default()
}

/// `serde_json::to_string_pretty` on a `serde_json::Value`: the text depends
/// on the value alone.
#[verifier::external_body]
fn write_pretty(value: &serde_json::Value) -> (text: String)
    ensures
        text@ == pretty_text(*value),
{
    serde_json::to_string_pretty(value).unwrap_or_default()
}

/// The tree that a sequence of bytes holds as JSON, if it is a JSON document.
pub open spec fn parsed_tree(bytes: Seq<u8>) -> Option<JsonTree> {
    match parsed_value(bytes) {
        Some(value) => Some(value_tree(value)),
        None => None,
    }
}

/// The compact JSON text of a tree.
pub open spec fn tree_text(tree: JsonTree) -> Seq<char> {
    compact_text(tree_value(tree))
}

/// The pretty-printed JSON text of a tree.
pub open spec fn tree_pretty_text(tree: JsonTree) -> Seq<char> {
    pretty_text(tree_value(tree))
}

/// A member of an object: `key` with the string `value` under it.
pub fn text_entry(key: &str, value: &String) -> (entry: (String, Json))
    ensures
        entry.0@ == key@,
        entry.1@ == JsonTree::Text(value@),
{
    (String::from_str(key), Json::Text(value.clone()))
}

impl Json {
    /// Reads one JSON document from `bytes`; `None` where they are not one.
    pub fn parse(bytes: &[u8]) -> (doc: Option<Json>)
        ensures
            doc is Some <==> parsed_tree(bytes@) is Some,
            doc matches Some(d) ==> parsed_tree(bytes@) == Some(d@),
    {
        match read_value(bytes) {
            Ok(value) => Some(tree_of(value)),
            Err(_) => None,
        }
    }

    /// The document as compact JSON text.
    pub fn to_text(&self) -> (text: String)
        ensures
            text@ == tree_text(self@),
    {
        let value = value_of(self);
        write_compact(&value)
    }

    /// The document as pretty-printed JSON text.
    pub fn to_pretty_text(&self) -> (text: String)
        ensures
            text@ == tree_pretty_text(self@),
    {
        let value = value_of(self);
        write_pretty(&value)
    }

    /// The member of an object under `key`.
    pub fn member(&self, key: &String) -> (found: Option<&Json>)
        ensures
            found is Some <==> self@.member(key@) is Some,
            found matches Some(d) ==> self@.member(key@) == Some(d@),
    {
        match self {
            Json::Record(members) => {
                let ghost all = member_trees_of(members@);
                proof {
                    lemma_member_trees_of(members@);
                }
                let mut i: usize = members.len();
                assert(all.take(i as int) =~= all);
                while i > 0
                    invariant
                        i <= members.len(),
                        self@ == JsonTree::Record(all),
                        all == member_trees_of(members@),
                        all.len() == members.len(),
                        forall|k: int| 0 <= k < members.len() ==> (#[trigger] all[k]) == (members[k].0@, members[k].1@),
                        lookup(all, key@) == lookup(all.take(i as int), key@),
                    decreases i,
                {
                    i = i - 1;
                    proof {
                        let before = all.take(i + 1);
                        assert(before.last() == all[i as int]);
                        assert(before.drop_last() =~= all.take(i as int));
                    }
                    if members[i].0 == *key {
                        return Some(&members[i].1);
                    }
                }
                assert(all.take(0).len() == 0);
                None
            },
            _ => None,
        }
    }

    /// The characters of a string.
    pub fn as_text(&self) -> (text: Option<&String>)
        ensures
            text is Some <==> self@.text() is Some,
            text matches Some(s) ==> self@.text() == Some(s@),
    {
        match self {
            Json::Text(s) => Some(s),
            _ => None,
        }
    }

    /// The value of a number that is a non-negative integer below 2^64.
    pub fn as_natural(&self) -> (n: Option<u64>)
        ensures
            n == self@.natural(),
    {
        match self {
            Json::Number(n) => *n,
            _ => None,
        }
    }

    /// The elements of an array.
    pub fn as_list(&self) -> (items: Option<&Vec<Json>>)
        ensures
            items is Some <==> self@.list() is Some,
            items matches Some(v) ==> self@.list() == Some(trees_of(v@)),
    {
        match self {
            Json::List(items) => Some(items),
            _ => None,
        }
    }
}

} // verus!
