//! Structured documents (TOML and JSON) as the `toml` and `serde_json` crates
//! parse them, seen through a common tree view.
//!
//! Parsing and walking the parsed values is left to those crates; every item
//! marked `external_body` below is trusted, and its contract says only what
//! the crate's source shows for the method it calls.
use vstd::prelude::*;

verus! {

/// The content of a parsed document: strings, tables (key/value entries in
/// the order the crate iterates them), arrays, and everything else.
pub enum DocTree {
    Str(Seq<char>),
    Table(Seq<(Seq<char>, DocTree)>),
    Array(Seq<DocTree>),
    Other,
}

/// The value stored under `key` in a list of table entries (keys of a
/// parsed table are unique, so the first match is the only one).
pub open spec fn entry(es: Seq<(Seq<char>, DocTree)>, key: Seq<char>) -> Option<DocTree>
    decreases es.len(),
{
    if es.len() == 0 {
        None
    } else if es[0].0 == key {
        Some(es[0].1)
    } else {
        entry(es.drop_first(), key)
    }
}

/// Indexing a tree by a key: only tables have children.
pub open spec fn child(t: DocTree, key: Seq<char>) -> Option<DocTree> {
    match t {
        DocTree::Table(es) => entry(es, key),
        _ => None,
    }
}

/// Indexing an optional tree by a key.
pub open spec fn child_of(t: Option<DocTree>, key: Seq<char>) -> Option<DocTree> {
    match t {
        Some(x) => child(x, key),
        None => None,
    }
}

// ---------------------------------------------------------------------------
// TOML
// ---------------------------------------------------------------------------

#[verifier::external_type_specification]
#[verifier::external_body]
pub struct ExTomlValue(toml::Value);

#[verifier::external_type_specification]
#[verifier::external_body]
#[verifier::reject_recursive_types(K)]
#[verifier::reject_recursive_types(V)]
pub struct ExTomlMap<K, V>(toml::map::Map<K, V>);

#[verifier::external_type_specification]
#[verifier::external_body]
pub struct ExTomlError(toml::de::Error);

/// What a `toml::Value` holds.
pub uninterp spec fn toml_tree(v: toml::Value) -> DocTree;

/// The entries of a `toml::Table`, in iteration order.
pub uninterp spec fn toml_entries(m: toml::map::Map<String, toml::Value>) -> Seq<(Seq<char>, DocTree)>;

/// The document `toml::from_str` parses from a text, or `None` where it reports an error.
pub uninterp spec fn toml_document(content: Seq<char>) -> Option<DocTree>;

/// `toml::from_str::<toml::Value>`: parses a TOML document. The result is
/// whatever the `toml` crate makes of the text; only its name is stated.
#[verifier::external_body]
pub fn toml_parse(content: &str) -> (r: Result<toml::Value, toml::de::Error>)
    ensures
        match r {
            Ok(v) => toml_document(content@) == Some(toml_tree(v)),
            Err(_) => toml_document(content@) is None,
        },
{
    toml::from_str::<toml::Value>(content)
}

/// `toml::de::Error`'s message (its `Display`); nothing is stated of the text.
#[verifier::external_body]
pub fn toml_error_message(e: &toml::de::Error) -> String {
    e.to_string()
}

/// `toml::Value::get` with a string key: the child of a table under that key,
/// `None` for a missing key or a value that is no table.
#[verifier::external_body]
pub fn toml_get<'a>(v: &'a toml::Value, key: &str) -> (r: Option<&'a toml::Value>)
    ensures
        match child(toml_tree(*v), key@) {
            Some(t) => (r matches Some(x) && toml_tree(*x) == t),
            None => r is None,
        },
{
    v.get(key)
}

/// `toml::Value::as_table`: the table of a `Table` value.
#[verifier::external_body]
pub fn toml_as_table<'a>(v: &'a toml::Value) -> (r: Option<&'a toml::map::Map<String, toml::Value>>)
    ensures
        match toml_tree(*v) {
            DocTree::Table(es) => (r matches Some(m) && toml_entries(*m) == es),
            _ => r is None,
        },
{
    v.as_table()
}

/// `toml::map::Map::iter`: the entries of a table, in iteration order.
#[verifier::external_body]
pub fn toml_table_iter<'a>(m: &'a toml::map::Map<String, toml::Value>) -> (r: Vec<(&'a String, &'a toml::Value)>)
    ensures
        r@.len() == toml_entries(*m).len(),
        forall|i: int|
            0 <= i < r@.len() ==> (#[trigger] r@[i]).0@ == toml_entries(*m)[i].0 && toml_tree(
                *r@[i].1,
            ) == toml_entries(*m)[i].1,
{
    m.iter().collect()
}

/// `toml::Value::as_str`: the text of a `String` value.
#[verifier::external_body]
pub fn toml_as_str<'a>(v: &'a toml::Value) -> (r: Option<&'a str>)
    ensures
        match toml_tree(*v) {
            DocTree::Str(s) => (r matches Some(x) && x@ == s),
            _ => r is None,
        },
{
    v.as_str()
}

/// `toml::Value::as_array`: the items of an `Array` value.
#[verifier::external_body]
pub fn toml_as_array<'a>(v: &'a toml::Value) -> (r: Option<&'a Vec<toml::Value>>)
    ensures
        match toml_tree(*v) {
            DocTree::Array(items) => (r matches Some(a) && a@.len() == items.len() && (forall|i: int|
                0 <= i < items.len() ==> toml_tree(#[trigger] a@[i]) == items[i])),
            _ => r is None,
        },
{
    v.as_array()
}

// ---------------------------------------------------------------------------
// JSON
// ---------------------------------------------------------------------------

#[verifier::external_type_specification]
#[verifier::external_body]
pub struct ExJsonValue(serde_json::Value);

#[verifier::external_type_specification]
#[verifier::external_body]
#[verifier::reject_recursive_types(K)]
#[verifier::reject_recursive_types(V)]
pub struct ExJsonMap<K, V>(serde_json::Map<K, V>);

#[verifier::external_type_specification]
#[verifier::external_body]
pub struct ExJsonError(serde_json::Error);

/// What a `serde_json::Value` holds (objects as tables).
pub uninterp spec fn json_tree(v: serde_json::Value) -> DocTree;

/// The entries of a `serde_json::Map`, in iteration order.
pub uninterp spec fn json_entries(m: serde_json::Map<String, serde_json::Value>) -> Seq<(Seq<char>, DocTree)>;

/// The value `serde_json::from_str` parses from a text, or `None` where it reports an error.
pub uninterp spec fn json_document(content: Seq<char>) -> Option<DocTree>;

/// `serde_json::from_str::<serde_json::Value>`: parses a JSON text. The
/// result is whatever `serde_json` makes of the text; only its name is stated.
#[verifier::external_body]
pub fn json_parse(content: &str) -> (r: Result<serde_json::Value, serde_json::Error>)
    ensures
        match r {
            Ok(v) => json_document(content@) == Some(json_tree(v)),
            Err(_) => json_document(content@) is None,
        },
{
    serde_json::from_str::<serde_json::Value>(content)
}

/// `serde_json::Error`'s message (its `Display`); nothing is stated of the text.
#[verifier::external_body]
pub fn json_error_message(e: &serde_json::Error) -> String {
    e.to_string()
}

/// `serde_json::Value::as_object`: the map of an `Object` value.
#[verifier::external_body]
pub fn json_as_object<'a>(v: &'a serde_json::Value) -> (r: Option<&'a serde_json::Map<String, serde_json::Value>>)
    ensures
        match json_tree(*v) {
            DocTree::Table(es) => (r matches Some(m) && json_entries(*m) == es),
            _ => r is None,
        },
{
    v.as_object()
}

/// `serde_json::Value::get` with a string key: the member of an object under
/// that key, `None` for a missing key or a value that is no object.
#[verifier::external_body]
pub fn json_get<'a>(v: &'a serde_json::Value, key: &str) -> (r: Option<&'a serde_json::Value>)
    ensures
        match child(json_tree(*v), key@) {
            Some(t) => (r matches Some(x) && json_tree(*x) == t),
            None => r is None,
        },
{
    v.get(key)
}

/// `serde_json::Map::iter`: the members of an object, in iteration order.
#[verifier::external_body]
pub fn json_object_iter<'a>(m: &'a serde_json::Map<String, serde_json::Value>) -> (r: Vec<(&'a String, &'a serde_json::Value)>)
    ensures
        r@.len() == json_entries(*m).len(),
        forall|i: int|
            0 <= i < r@.len() ==> (#[trigger] r@[i]).0@ == json_entries(*m)[i].0 && json_tree(
                *r@[i].1,
            ) == json_entries(*m)[i].1,
{
    m.iter().collect()
}

/// `serde_json::Value::as_str`: the text of a `String` value.
#[verifier::external_body]
pub fn json_as_str<'a>(v: &'a serde_json::Value) -> (r: Option<&'a str>)
    ensures
        match json_tree(*v) {
            DocTree::Str(s) => (r matches Some(x) && x@ == s),
            _ => r is None,
        },
{
    v.as_str()
}

} // verus!
