//! A stored value and its checked projections.

use vstd::prelude::*;
use crate::error::TypeMismatchError;
use crate::json::{Node, Numeral, json_node, json_pretty};
use crate::json::{as_array, as_bool, as_str, as_u64, is_null, json_clone, pretty};
use crate::tree::Tree;

verus! {

/// One value read from a tree: a null, a boolean, a number, a string, an
/// array or a nested tree.  A value never changes once it is made.
#[derive(Debug)]
pub struct DocValue {
    val: serde_json::Value,
}

impl View for DocValue {
    type V = Node;

    /// The document that the value holds.
    closed spec fn view(&self) -> Node {
        json_node(self.val)
    }
}

/// The string that a document holds, if it is a string.
pub open spec fn text_of(node: Node) -> Option<Seq<char>> {
    match node {
        Node::Text(s) => Some(s),
        _ => None,
    }
}

/// The number that a document holds, if it is a non-negative integer that
/// fits in `usize`.
pub open spec fn number_of(node: Node) -> Option<usize> {
    match node {
        Node::Number(Numeral::Unsigned(n)) => if n <= usize::MAX {
            Some(n as usize)
        } else {
            None
        },
        _ => None,
    }
}

/// The boolean that a document holds, if it is a boolean.
pub open spec fn bool_of(node: Node) -> Option<bool> {
    match node {
        Node::Bool(b) => Some(b),
        _ => None,
    }
}

/// Whether every document of a sequence is a string.
pub open spec fn all_text(items: Seq<Node>) -> bool {
    forall|i: int| 0 <= i < items.len() ==> (#[trigger] items[i]) is Text
}

/// The strings that a document holds, if it is an array of strings.
pub open spec fn texts_of(node: Node) -> Option<Seq<Seq<char>>> {
    match node {
        Node::List(items) => if all_text(items) {
            Some(Seq::new(items.len(), |i: int| items[i]->Text_0))
        } else {
            None
        },
        _ => None,
    }
}

/// The entries that a document holds, if it is an object.
pub open spec fn entries_of(node: Node) -> Option<Map<Seq<char>, Node>> {
    match node {
        Node::Object(entries) => Some(entries),
        _ => None,
    }
}

/// The text that shows a document to a reader: nothing for a null, the
/// literal for a boolean, the characters of a string without quotes, and for
/// a number, an array or an object what the pretty-printer writes.
pub open spec fn display_text(node: Node) -> Seq<char> {
    match node {
        Node::Null => Seq::empty(),
        Node::Bool(b) => if b {
            "true"@
        } else {
            "false"@
        },
        Node::Text(s) => s,
        _ => json_pretty(node),
    }
}

/// The characters of each string of a sequence.
pub open spec fn views_of(strings: Seq<String>) -> Seq<Seq<char>> {
    Seq::new(strings.len(), |i: int| strings[i]@)
}

impl DocValue {
    /// Wraps a document read from a tree.
    pub(crate) fn wrap(val: serde_json::Value) -> (r: DocValue)
        ensures
            r@ == json_node(val),
    {
        DocValue { val }
    }

    /// Hands the document over.
    pub(crate) fn into_inner(self) -> (r: serde_json::Value)
        ensures
            json_node(r) == self@,
    {
        self.val
    }

    /// The string, if the value is a string.
    pub fn to_string(&self) -> (r: Result<String, TypeMismatchError>)
        ensures
            match r {
                Ok(s) => text_of(self@) == Some(s@),
                Err(_) => text_of(self@) is None,
            },
    {
        match as_str(&self.val) {
            Some(s) => Ok(s.to_owned()),
            None => Err(TypeMismatchError),
        }
    }

    /// The number, if the value is a non-negative integer that fits in
    /// `usize`.
    pub fn to_number(&self) -> (r: Result<usize, TypeMismatchError>)
        ensures
            match r {
                Ok(n) => number_of(self@) == Some(n),
                Err(_) => number_of(self@) is None,
            },
    {
        match as_u64(&self.val) {
            Some(n) => {
                if n <= usize::MAX as u64 {
                    Ok(n as usize)
                } else {
                    Err(TypeMismatchError)
                }
            },
            None => Err(TypeMismatchError),
        }
    }

    /// The boolean, if the value is a boolean.
    pub fn to_bool(&self) -> (r: Result<bool, TypeMismatchError>)
        ensures
            match r {
                Ok(b) => bool_of(self@) == Some(b),
                Err(_) => bool_of(self@) is None,
            },
    {
        match as_bool(&self.val) {
            Some(b) => Ok(b),
            None => Err(TypeMismatchError),
        }
    }

    /// The strings in their order, if the value is an array of strings.
    pub fn to_vec(&self) -> (r: Result<Vec<String>, TypeMismatchError>)
        ensures
            match r {
                Ok(v) => texts_of(self@) == Some(views_of(v@)),
                Err(_) => texts_of(self@) is None,
            },
    {
        let items = match as_array(&self.val) {
            Some(items) => items,
            None => {
                return Err(TypeMismatchError);
            },
        };
        let ghost nodes = self@->List_0;
        let mut out: Vec<String> = Vec::new();
        let mut i: usize = 0;
        while i < items.len()
            invariant
                i <= items.len(),
                nodes.len() == items.len(),
                self@ == Node::List(nodes),
                forall|k: int| 0 <= k < items.len() ==> nodes[k] == json_node(#[trigger] items[k]),
                out.len() == i,
                forall|k: int| 0 <= k < i ==> nodes[k] == Node::Text(#[trigger] out[k]@),
            decreases items.len() - i,
        {
            match as_str(&items[i]) {
                Some(s) => {
                    out.push(s.to_owned());
                },
                None => {
                    assert(!(nodes[i as int] is Text));
                    return Err(TypeMismatchError);
                },
            }
            i += 1;
        }
        assert forall|k: int| 0 <= k < nodes.len() implies (#[trigger] nodes[k]) is Text by {
            assert(nodes[k] == Node::Text(out[k]@));
        }
        assert(views_of(out@) =~= Seq::new(nodes.len(), |i: int| nodes[i]->Text_0));
        Ok(out)
    }

    /// A tree with the entries of the value, if the value is an object.  The
    /// tree is a copy: it shares nothing with the tree the value was read
    /// from.
    pub fn to_tree(&self) -> (r: Result<Tree, TypeMismatchError>)
        ensures
            match r {
                Ok(t) => entries_of(self@) == Some(t@) && t@.dom().finite(),
                Err(_) => entries_of(self@) is None,
            },
    {
        match Tree::from_value(DocValue { val: json_clone(&self.val) }) {
            Ok(t) => Ok(t),
            Err(_) => Err(TypeMismatchError),
        }
    }

    /// The value as text for a reader.
    pub fn display(&self) -> (r: String)
        ensures
            r@ == display_text(self@),
    {
        if is_null(&self.val) {
            return String::new();
        }
        if let Some(b) = as_bool(&self.val) {
            return if b {
                "true".to_owned()
            } else {
                "false".to_owned()
            };
        }
        if let Some(s) = as_str(&self.val) {
            return s.to_owned();
        }
        pretty(&self.val)
    }
}

} // verus!
