//! JSON values.
//!
//! Values are `serde_json::Value`s. Verus cannot look inside one, so the
//! contracts of this crate speak of the tree a value holds, `tree_of(v)`, and
//! every operation on a value goes through one of the small functions below.
//! Those marked `external_body` are believed, not proved: each names the
//! `serde_json` item it calls and says what is claimed of it.
//!
//! Objects are modelled as maps from key to member. This matches
//! `serde_json` as it is built by default, where an object keeps its members
//! sorted by key, so that the text of a value depends on nothing but its
//! tree.

use serde_json::Value;
use vstd::prelude::*;

use crate::text::int_text;

verus! {

#[verifier::external_type_specification]
#[verifier::external_body]
pub struct ExValue(serde_json::Value);

/// The mathematical content of a JSON value.
pub enum JsonTree {
    Null,
    Bool(bool),
    /// A number, by its canonical decimal text.
    Number(Seq<char>),
    Str(Seq<char>),
    Array(Seq<JsonTree>),
    Object(Map<Seq<char>, JsonTree>),
}

/// The tree that a value holds.
pub uninterp spec fn tree_of(v: Value) -> JsonTree;

/// What `serde_json::from_str` makes of a text: the tree of the value it
/// parses to, or the message of the error it reports.
pub uninterp spec fn json_parse(text: Seq<char>) -> Result<JsonTree, Seq<char>>;

/// The compact text that `serde_json::to_string` writes for a tree.
pub uninterp spec fn json_text(t: JsonTree) -> Seq<char>;

/// The indented text that `serde_json::to_string_pretty` writes for a tree.
pub uninterp spec fn json_pretty(t: JsonTree) -> Seq<char>;

/// The trees of a list of values.
pub open spec fn trees(vs: Seq<Value>) -> Seq<JsonTree> {
    vs.map_values(|v: Value| tree_of(v))
}

/// The member of an object under `key`; `None` for a missing key and for
/// anything that is not an object.
pub open spec fn member(t: JsonTree, key: Seq<char>) -> Option<JsonTree> {
    match t {
        JsonTree::Object(m) => if m.dom().contains(key) {
            Some(m[key])
        } else {
            None
        },
        _ => None,
    }
}

/// The text of a string member; `None` if the member is missing or is not a
/// string.
pub open spec fn text_member(t: JsonTree, key: Seq<char>) -> Option<Seq<char>> {
    match member(t, key) {
        Some(JsonTree::Str(s)) => Some(s),
        _ => None,
    }
}

/// The object with no members.
pub open spec fn empty_object() -> JsonTree {
    JsonTree::Object(Map::empty())
}

/// An object with one more member; a member already under `key` is replaced.
pub open spec fn with_member(t: JsonTree, key: Seq<char>, value: JsonTree) -> JsonTree {
    match t {
        JsonTree::Object(m) => JsonTree::Object(m.insert(key, value)),
        other => other,
    }
}

/// The tree of an integer.
pub open spec fn integer_tree(n: int) -> JsonTree {
    JsonTree::Number(int_text(n))
}

/// The tree of a list of texts.
pub open spec fn text_array(items: Seq<Seq<char>>) -> JsonTree {
    JsonTree::Array(items.map_values(|s: Seq<char>| JsonTree::Str(s)))
}

/// Calls `serde_json::from_str` for a `Value`. The outcome is a function of
/// the text: on success the tree of the value, on failure the error's
/// `Display` text.
#[verifier::external_body]
pub(crate) fn parse(text: &str) -> (r: Result<Value, String>)
    ensures
        match r {
            Ok(v) => json_parse(text@) == Ok::<JsonTree, Seq<char>>(tree_of(v)),
            Err(e) => json_parse(text@) == Err::<JsonTree, Seq<char>>(e@),
        },
{
    match serde_json::from_str::<Value>(text) {
        Ok(v) => Ok(v),
        Err(e) => Err(e.to_string()),
    }
}

/// Calls `serde_json::to_string`, which cannot fail on a `Value` written to
/// memory. The text depends on the tree alone, and it is one line: the
/// writer puts no line break between members, and inside strings it writes
/// a line break as an escape.
#[verifier::external_body]
pub(crate) fn to_text(v: &Value) -> (s: String)
    ensures
        s@ == json_text(tree_of(*v)),
        !s@.contains('\n'),
{
    match serde_json::to_string(v) {
        Ok(s) => s,
        Err(_) => String::new(),
    }
}

/// Calls `serde_json::to_string_pretty`, which cannot fail on a `Value`
/// written to memory. The text depends on the tree alone.
#[verifier::external_body]
pub(crate) fn to_pretty_text(v: &Value) -> (s: String)
    ensures
        s@ == json_pretty(tree_of(*v)),
{
    match serde_json::to_string_pretty(v) {
        Ok(s) => s,
        Err(_) => String::new(),
    }
}

/// Calls `Value::get` with a string index: the member under `key` if the
/// value is an object that has one, else `None`.
#[verifier::external_body]
pub(crate) fn get<'a>(v: &'a Value, key: &str) -> (r: Option<&'a Value>)
    ensures
        match r {
            Some(x) => member(tree_of(*v), key@) == Some(tree_of(*x)),
            None => member(tree_of(*v), key@) is None,
        },
{
    v.get(key)
}

/// Calls `Value::as_str`: the text if the value is a string, else `None`.
#[verifier::external_body]
pub(crate) fn as_str<'a>(v: &'a Value) -> (r: Option<&'a str>)
    ensures
        match r {
            Some(s) => tree_of(*v) == JsonTree::Str(s@),
            None => !(tree_of(*v) is Str),
        },
{
    v.as_str()
}

/// Calls `Value::is_null`.
#[verifier::external_body]
pub(crate) fn is_null(v: &Value) -> (r: bool)
    ensures
        r == (tree_of(*v) is Null),
{
    v.is_null()
}

/// `Value::clone`: the copy holds the same tree.
pub assume_specification[ <serde_json::Value as Clone>::clone ](v: &serde_json::Value) -> (r:
    serde_json::Value)
    ensures
        tree_of(r) == tree_of(*v),
;

/// Makes `Value::Null`.
#[verifier::external_body]
pub(crate) fn null() -> (r: Value)
    ensures
        tree_of(r) == JsonTree::Null,
{
    Value::Null
}

/// Makes a `Value::Bool`.
#[verifier::external_body]
pub(crate) fn boolean(b: bool) -> (r: Value)
    ensures
        tree_of(r) == JsonTree::Bool(b),
{
    Value::Bool(b)
}

/// Makes a `Value::String` with a copy of the text.
#[verifier::external_body]
pub(crate) fn string(s: &str) -> (r: Value)
    ensures
        tree_of(r) == JsonTree::Str(s@),
{
    Value::String(s.to_owned())
}

/// Calls `Value::from` on an `i64`. The number it makes prints as the usual
/// decimal text of the integer.
#[verifier::external_body]
pub(crate) fn integer(n: i64) -> (r: Value)
    ensures
        tree_of(r) == integer_tree(n as int),
{
    Value::from(n)
}

/// Makes a `Value::Array` of the items, in their order.
#[verifier::external_body]
pub(crate) fn array(items: Vec<Value>) -> (r: Value)
    ensures
        tree_of(r) == JsonTree::Array(trees(items@)),
{
    Value::Array(items)
}

/// Makes a `Value::Object` around a new, empty `serde_json::Map`.
#[verifier::external_body]
pub(crate) fn object() -> (r: Value)
    ensures
        tree_of(r) == empty_object(),
{
    Value::Object(serde_json::Map::new())
}

/// Calls `Map::insert` on the map of an object: the member is added, or
/// replaces the one already under `key`. A value that is no object is left as
/// it is.
#[verifier::external_body]
pub(crate) fn insert(obj: &mut Value, key: &str, value: Value)
    ensures
        tree_of(*final(obj)) == with_member(tree_of(*old(obj)), key@, tree_of(value)),
{
    if let Some(m) = obj.as_object_mut() {
        m.insert(key.to_owned(), value);
    }
}

/// Adds a string member to an object.
pub fn insert_str(obj: &mut Value, key: &str, s: &str)
    ensures
        tree_of(*final(obj)) == with_member(tree_of(*old(obj)), key@, JsonTree::Str(s@)),
{
    insert(obj, key, string(s));
}

/// Adds a boolean member to an object.
pub fn insert_bool(obj: &mut Value, key: &str, b: bool)
    ensures
        tree_of(*final(obj)) == with_member(tree_of(*old(obj)), key@, JsonTree::Bool(b)),
{
    insert(obj, key, boolean(b));
}

/// The text of the string member `key` of `v`.
pub fn get_str<'a>(v: &'a Value, key: &str) -> (r: Option<&'a str>)
    ensures
        match r {
            Some(s) => text_member(tree_of(*v), key@) == Some(s@),
            None => text_member(tree_of(*v), key@) is None,
        },
{
    match get(v, key) {
        Some(x) => as_str(x),
        None => None,
    }
}

/// The tree of the JSON value that a text denotes; `null` for a text that
/// denotes none.
pub open spec fn parsed_or_null(text: Seq<char>) -> JsonTree {
    match json_parse(text) {
        Ok(t) => t,
        Err(_) => JsonTree::Null,
    }
}

/// The JSON value that a text denotes; `null` for a text that denotes none.
pub fn value_from_text(text: &str) -> (r: Value)
    ensures
        tree_of(r) == parsed_or_null(text@),
{
    match parse(text) {
        Ok(v) => v,
        Err(_) => null(),
    }
}

/// A JSON array of strings.
pub fn strings(items: &Vec<String>) -> (r: Value)
    ensures
        tree_of(r) == text_array(crate::text::texts(items@)),
{
    let mut out: Vec<Value> = Vec::new();
    let mut i: usize = 0;
    while i < items.len()
        invariant
            i <= items.len(),
            out@.len() == i,
            forall|k: int| 0 <= k < i ==> tree_of(#[trigger] out@[k]) == JsonTree::Str(items@[k]@),
        decreases items.len() - i,
    {
        out.push(string(items[i].as_str()));
        i += 1;
    }
    let r = array(out);
    assert(trees(out@) =~= crate::text::texts(items@).map_values(|s: Seq<char>| JsonTree::Str(s)));
    r
}

} // verus!
