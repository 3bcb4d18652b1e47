//! The document tree: named values, any of which may be a tree itself.

use vstd::prelude::*;
use crate::error::{DecodeError, KeyNotFoundError};
use crate::json::{Node, Numeral, json_node, json_parse, json_pretty, map_entries, nodes_of};
use crate::json::{
    into_object, json_bool, json_clone, json_list, json_object, json_text, json_unsigned,
    map_clone, map_contains_key, map_get, map_insert, map_len, map_new, map_remove, parse, pretty,
};
use crate::value::DocValue;

verus! {

/// A mapping from keys to values.  No key occurs twice; a value may be a
/// nested tree.  A tree owns all it holds: what is put into it is moved or
/// copied, never shared.
#[derive(Debug)]
pub struct Tree {
    children: serde_json::Map<String, serde_json::Value>,
}

impl View for Tree {
    type V = Map<Seq<char>, Node>;

    /// The entries of the tree, by key.
    closed spec fn view(&self) -> Map<Seq<char>, Node> {
        map_entries(self.children)
    }
}

/// The array of strings that holds the given strings in their order.
pub open spec fn text_list(strings: Seq<&str>) -> Node {
    Node::List(Seq::new(strings.len(), |i: int| Node::Text(strings[i]@)))
}

/// What decoding makes of a text: the entries of the object that the text
/// spells, or the reason why there are none.
pub open spec fn decode(text: Seq<char>) -> Result<Map<Seq<char>, Node>, DecodeError> {
    match json_parse(text) {
        None => Err(DecodeError::Malformed),
        Some(Node::Object(entries)) => Ok(entries),
        Some(_) => Err(DecodeError::NotAnObject),
    }
}

/// What a lookup finds under a key: the value stored there, or nothing
/// where the key is absent.
pub open spec fn lookup(entries: Map<Seq<char>, Node>, key: Seq<char>) -> Option<Node> {
    if entries.contains_key(key) {
        Some(entries[key])
    } else {
        None
    }
}

impl Tree {
    /// An empty tree.
    pub fn new() -> (r: Tree)
        ensures
            r@ == (Map::<Seq<char>, Node>::empty()),
    {
        Tree { children: map_new() }
    }

    /// The tree that a JSON text spells.  The text has to be well-formed and
    /// its root an object.
    pub fn from(text: &str) -> (r: Result<Tree, DecodeError>)
        ensures
            match r {
                Ok(t) => decode(text@) == Ok::<Map<Seq<char>, Node>, DecodeError>(t@) && t@.dom().finite(),
                Err(e) => decode(text@) == Err::<Map<Seq<char>, Node>, DecodeError>(e),
            },
    {
        match parse(text) {
            Ok(j) => Tree::from_value(DocValue::wrap(j)),
            Err(_) => Err(DecodeError::Malformed),
        }
    }

    /// The tree that a decoded value holds.  The value has to be an object;
    /// its entries become the entries of the tree.
    pub fn from_value(value: DocValue) -> (r: Result<Tree, DecodeError>)
        ensures
            match r {
                Ok(t) => value@ == Node::Object(t@) && t@.dom().finite(),
                Err(e) => !(value@ is Object) && e == DecodeError::NotAnObject,
            },
    {
        match into_object(value.into_inner()) {
            Some(children) => Ok(Tree { children }),
            None => Err(DecodeError::NotAnObject),
        }
    }

    /// Stores a string under the key, in place of what the key held before.
    pub fn insert(&mut self, key: &str, value: &str)
        ensures
            final(self)@ == old(self)@.insert(key@, Node::Text(value@)),
    {
        map_insert(&mut self.children, key.to_owned(), json_text(value.to_owned()));
    }

    /// Stores a number under the key, in place of what the key held before.
    pub fn insert_number(&mut self, key: &str, value: usize)
        ensures
            final(self)@ == old(self)@.insert(key@, Node::Number(Numeral::Unsigned(value as u64))),
    {
        map_insert(&mut self.children, key.to_owned(), json_unsigned(value as u64));
    }

    /// Stores a boolean under the key, in place of what the key held before.
    pub fn insert_bool(&mut self, key: &str, value: bool)
        ensures
            final(self)@ == old(self)@.insert(key@, Node::Bool(value)),
    {
        map_insert(&mut self.children, key.to_owned(), json_bool(value));
    }

    /// Stores an array of strings under the key, in place of what the key
    /// held before.
    pub fn insert_array(&mut self, key: &str, value: Vec<&str>)
        ensures
            final(self)@ == old(self)@.insert(key@, text_list(value@)),
    {
        let mut items: Vec<serde_json::Value> = Vec::new();
        let mut i: usize = 0;
        while i < value.len()
            invariant
                i <= value.len(),
                items.len() == i,
                forall|k: int| 0 <= k < i ==> json_node(#[trigger] items[k]) == Node::Text(value[k]@),
            decreases value.len() - i,
        {
            items.push(json_text(value[i].to_owned()));
            i += 1;
        }
        let list = json_list(items);
        assert(json_node(list) == text_list(value@)) by {
            assert(nodes_of(items@) =~= Seq::new(
                value@.len(),
                |i: int| Node::Text(value@[i]@),
            ));
        }
        map_insert(&mut self.children, key.to_owned(), list);
    }

    /// Stores a whole tree under the key, in place of what the key held
    /// before.  The tree is moved in and counts as one entry.
    pub fn insert_tree(&mut self, key: &str, value: Tree)
        ensures
            final(self)@ == old(self)@.insert(key@, Node::Object(value@)),
    {
        map_insert(&mut self.children, key.to_owned(), json_object(value.children));
    }

    /// The number of entries.  A nested tree counts as one.
    pub fn len(&self) -> (r: usize)
        ensures
            r == self@.len(),
    {
        map_len(&self.children)
    }

    /// Takes the key and its value out of the tree.  Nothing happens if the
    /// tree does not hold the key.
    pub fn remove(&mut self, key: &str)
        ensures
            final(self)@ == old(self)@.remove(key@),
            !old(self)@.contains_key(key@) ==> final(self)@ == old(self)@,
    {
        map_remove(&mut self.children, key);
        assert(!old(self)@.contains_key(key@) ==> old(self)@.remove(key@) =~= old(self)@);
    }

    /// The value stored under the key.  The error names the key, and comes
    /// exactly where the tree does not hold it.
    pub fn find(&self, key: &str) -> (r: Result<DocValue, KeyNotFoundError>)
        ensures
            match r {
                Ok(v) => lookup(self@, key@) == Some(v@),
                Err(e) => lookup(self@, key@) is None && e.key@ == key@,
            },
    {
        match map_get(&self.children, key) {
            Some(j) => Ok(DocValue::wrap(json_clone(j))),
            None => Err(KeyNotFoundError { key: key.to_owned() }),
        }
    }

    /// Whether the tree holds the key.
    pub fn contains_key(&self, key: &str) -> (r: bool)
        ensures
            r == self@.contains_key(key@),
    {
        map_contains_key(&self.children, key)
    }

    /// The whole tree as pretty-printed JSON text.
    pub fn display(&self) -> (r: String)
        ensures
            r@ == json_pretty(Node::Object(self@)),
    {
        pretty(&json_object(map_clone(&self.children)))
    }
}

} // verus!
