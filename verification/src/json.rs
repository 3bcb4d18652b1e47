//! The boundary with `serde_json`.
//!
//! Everything the store knows about JSON text comes from `serde_json`: it
//! parses the backing file and prints the document.  This module holds the
//! mathematical model of a JSON document ([`Node`]) and one small wrapper per
//! `serde_json` item that the store calls.  The contracts of these wrappers
//! are believed, not proved; each says what it claims of the outside item.

use vstd::prelude::*;

verus! {

/// A JSON number as the codec stores it.
pub enum Numeral {
    /// A non-negative integer that fits in 64 bits.
    Unsigned(u64),
    /// Any other number (negative or fractional).  The code only tells two
    /// such numbers apart; nothing is said of what number a code stands for.
    Other(int),
}

/// The mathematical model of a JSON document.
pub enum Node {
    Null,
    Bool(bool),
    Number(Numeral),
    Text(Seq<char>),
    List(Seq<Node>),
    Object(Map<Seq<char>, Node>),
}

/// `serde_json::Value`, carried as it is: what it holds is read through
/// `json_node` and the wrappers below.
#[verifier::external_type_specification]
#[verifier::external_body]
pub struct ExSerdeValue(serde_json::Value);

/// `serde_json::Map`, carried as it is: what it holds is read through
/// `map_entries` and the wrappers below.
#[verifier::external_type_specification]
#[verifier::external_body]
#[verifier::reject_recursive_types(K)]
#[verifier::reject_recursive_types(V)]
pub struct ExSerdeMap<K, V>(serde_json::Map<K, V>);

/// `serde_json::Error`, carried as it is: nothing is read from it.
#[verifier::external_type_specification]
#[verifier::external_body]
pub struct ExSerdeError(serde_json::Error);

/// The document that a `serde_json::Value` holds.
pub uninterp spec fn json_node(j: serde_json::Value) -> Node;

/// The entries that a `serde_json::Map` holds, by key.
pub uninterp spec fn map_entries(m: serde_json::Map<String, serde_json::Value>) -> Map<Seq<char>, Node>;

/// What `serde_json::from_str` makes of a text: the document it reads, or
/// `None` where it reports an error.
pub uninterp spec fn json_parse(text: Seq<char>) -> Option<Node>;

/// The text that `serde_json::to_string_pretty` prints for a document.  The
/// map behind an object keeps its entries in key order, so the text depends
/// on the document alone.
pub uninterp spec fn json_pretty(node: Node) -> Seq<char>;

/// The documents held by a sequence of `serde_json` values, in order.
pub open spec fn nodes_of(items: Seq<serde_json::Value>) -> Seq<Node> {
    Seq::new(items.len(), |i: int| json_node(items[i]))
}

/// `serde_json::from_str` at type `serde_json::Value`: the value holds the
/// document that the text spells, and an error comes exactly where the text
/// spells none.
#[verifier::external_body]
pub(crate) fn parse(text: &str) -> (r: Result<serde_json::Value, serde_json::Error>)
    ensures
        match r {
            Ok(j) => json_parse(text@) == Some(json_node(j)),
            Err(_) => json_parse(text@) is None,
        },
{
    serde_json::from_str::<serde_json::Value>(text)
}

/// `serde_json::to_string_pretty` on a `serde_json::Value`.  Printing such a
/// value cannot fail: its keys are strings, its numbers are finite, and the
/// text is written to memory.
#[verifier::external_body]
pub(crate) fn pretty(j: &serde_json::Value) -> (r: String)
    ensures
        r@ == json_pretty(json_node(*j)),
{
    serde_json::to_string_pretty(j).unwrap_or_default()
}

/// `Clone` for `serde_json::Value`: the copy holds the same document.
#[verifier::external_body]
pub(crate) fn json_clone(j: &serde_json::Value) -> (r: serde_json::Value)
    ensures
        json_node(r) == json_node(*j),
{
    j.clone()
}

/// The variant `serde_json::Value::String`.
#[verifier::external_body]
pub(crate) fn json_text(s: String) -> (r: serde_json::Value)
    ensures
        json_node(r) == Node::Text(s@),
{
    serde_json::Value::String(s)
}

/// `From<u64>` for `serde_json::Value`: a number that holds the integer.
#[verifier::external_body]
pub(crate) fn json_unsigned(n: u64) -> (r: serde_json::Value)
    ensures
        json_node(r) == Node::Number(Numeral::Unsigned(n)),
{
    serde_json::Value::from(n)
}

/// The variant `serde_json::Value::Bool`.
#[verifier::external_body]
pub(crate) fn json_bool(b: bool) -> (r: serde_json::Value)
    ensures
        json_node(r) == Node::Bool(b),
{
    serde_json::Value::Bool(b)
}

/// The variant `serde_json::Value::Array`: the items in their order.
#[verifier::external_body]
pub(crate) fn json_list(items: Vec<serde_json::Value>) -> (r: serde_json::Value)
    ensures
        json_node(r) == Node::List(nodes_of(items@)),
{
    serde_json::Value::Array(items)
}

/// The variant `serde_json::Value::Object`: the entries of the map.
#[verifier::external_body]
pub(crate) fn json_object(m: serde_json::Map<String, serde_json::Value>) -> (r: serde_json::Value)
    ensures
        json_node(r) == Node::Object(map_entries(m)),
{
    serde_json::Value::Object(m)
}

/// Takes the map out of a `serde_json::Value::Object`; any other variant
/// gives `None`.  The map holds finitely many entries.
#[verifier::external_body]
pub(crate) fn into_object(j: serde_json::Value) -> (r: Option<serde_json::Map<String, serde_json::Value>>)
    ensures
        match r {
            Some(m) => json_node(j) == Node::Object(map_entries(m)) && map_entries(m).dom().finite(),
            None => !(json_node(j) is Object),
        },
{
    match j {
        serde_json::Value::Object(m) => Some(m),
        _ => None,
    }
}

/// `serde_json::Value::is_null`.
#[verifier::external_body]
pub(crate) fn is_null(j: &serde_json::Value) -> (r: bool)
    ensures
        r == (json_node(*j) is Null),
{
    j.is_null()
}

/// `serde_json::Value::as_bool`: the boolean of a `Bool`, else `None`.
#[verifier::external_body]
pub(crate) fn as_bool(j: &serde_json::Value) -> (r: Option<bool>)
    ensures
        match r {
            Some(b) => json_node(*j) == Node::Bool(b),
            None => !(json_node(*j) is Bool),
        },
{
    j.as_bool()
}

/// `serde_json::Value::as_u64`: the integer of a number that is stored as a
/// non-negative integer, else `None`.
#[verifier::external_body]
pub(crate) fn as_u64(j: &serde_json::Value) -> (r: Option<u64>)
    ensures
        match r {
            Some(n) => json_node(*j) == Node::Number(Numeral::Unsigned(n)),
            None => !(json_node(*j) matches Node::Number(Numeral::Unsigned(_))),
        },
{
    j.as_u64()
}

/// `serde_json::Value::as_str`: the text of a `String`, else `None`.
#[verifier::external_body]
pub(crate) fn as_str(j: &serde_json::Value) -> (r: Option<&str>)
    ensures
        match r {
            Some(s) => json_node(*j) == Node::Text(s@),
            None => !(json_node(*j) is Text),
        },
{
    j.as_str()
}

/// `serde_json::Value::as_array`: the items of an `Array`, else `None`.
#[verifier::external_body]
pub(crate) fn as_array(j: &serde_json::Value) -> (r: Option<&Vec<serde_json::Value>>)
    ensures
        match r {
            Some(items) => json_node(*j) == Node::List(nodes_of(items@)),
            None => !(json_node(*j) is List),
        },
{
    j.as_array()
}

/// `serde_json::Map::new`: a map without entries.
#[verifier::external_body]
pub(crate) fn map_new() -> (r: serde_json::Map<String, serde_json::Value>)
    ensures
        map_entries(r) == (Map::<Seq<char>, Node>::empty()),
{
    serde_json::Map::new()
}

/// `Clone` for `serde_json::Map`: the copy holds the same entries.
#[verifier::external_body]
pub(crate) fn map_clone(m: &serde_json::Map<String, serde_json::Value>) -> (r: serde_json::Map<String, serde_json::Value>)
    ensures
        map_entries(r) == map_entries(*m),
{
    m.clone()
}

/// `serde_json::Map::len`: the number of entries.
#[verifier::external_body]
pub(crate) fn map_len(m: &serde_json::Map<String, serde_json::Value>) -> (r: usize)
    ensures
        r == map_entries(*m).len(),
{
    m.len()
}

/// `serde_json::Map::contains_key`.
#[verifier::external_body]
pub(crate) fn map_contains_key(m: &serde_json::Map<String, serde_json::Value>, key: &str) -> (r: bool)
    ensures
        r == map_entries(*m).contains_key(key@),
{
    m.contains_key(key)
}

/// `serde_json::Map::get`: the value stored under the key, if any.
#[verifier::external_body]
pub(crate) fn map_get<'a>(m: &'a serde_json::Map<String, serde_json::Value>, key: &str) -> (r: Option<&'a serde_json::Value>)
    ensures
        match r {
            Some(j) => map_entries(*m).contains_key(key@) && map_entries(*m)[key@] == json_node(*j),
            None => !map_entries(*m).contains_key(key@),
        },
{
    m.get(key)
}

/// `serde_json::Map::insert`: the value is stored under the key, in place of
/// what the key held before; the other entries stay.
#[verifier::external_body]
pub(crate) fn map_insert(m: &mut serde_json::Map<String, serde_json::Value>, key: String, value: serde_json::Value)
    ensures
        map_entries(*final(m)) == map_entries(*old(m)).insert(key@, json_node(value)),
{
    m.insert(key, value);
}

/// `serde_json::Map::remove`: the key's entry leaves, if there is one; the
/// other entries stay.
#[verifier::external_body]
pub(crate) fn map_remove(m: &mut serde_json::Map<String, serde_json::Value>, key: &str)
    ensures
        map_entries(*final(m)) == map_entries(*old(m)).remove(key@),
{
    m.remove(key);
}

} // verus!
