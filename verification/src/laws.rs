//! Laws of the store, stated over the models that the contracts of its
//! functions use: the entries of a tree (`Tree::view`), what a lookup finds
//! (`lookup`) and what a value projects to (`number_of` and its siblings).

use vstd::prelude::*;
use crate::json::{Node, Numeral};
use crate::tree::lookup;
use crate::value::{bool_of, entries_of, number_of, text_of, texts_of};

verus! {

/// Removing a key that the tree does not hold changes nothing: the entries
/// and their number stay as they were.  Removing a key a second time changes
/// nothing either.
pub proof fn law_remove_absent_changes_nothing(entries: Map<Seq<char>, Node>, key: Seq<char>)
    ensures
        !entries.contains_key(key) ==> entries.remove(key) == entries,
        !entries.contains_key(key) ==> entries.remove(key).len() == entries.len(),
        entries.remove(key).remove(key) == entries.remove(key),
{
    if !entries.contains_key(key) {
        assert(entries.remove(key) =~= entries);
    }
    assert(entries.remove(key).remove(key) =~= entries.remove(key));
}

/// Inserting under a key that the tree holds replaces the value of that key
/// and nothing else: the number of entries stays, the keys stay, and every
/// other key keeps its value.
pub proof fn law_overwrite_replaces_in_place(
    entries: Map<Seq<char>, Node>,
    key: Seq<char>,
    node: Node,
)
    requires
        entries.contains_key(key),
    ensures
        entries.insert(key, node).len() == entries.len(),
        entries.insert(key, node).dom() == entries.dom(),
        lookup(entries.insert(key, node), key) == Some(node),
        forall|other: Seq<char>|
            other != key ==> lookup(entries.insert(key, node), other) == lookup(entries, other),
{
    assert(entries.insert(key, node).dom() =~= entries.dom());
}

/// Inserting under a key that the tree does not hold adds one entry, whatever
/// the value is: a nested tree counts as one.
pub proof fn law_fresh_key_adds_one_entry(
    entries: Map<Seq<char>, Node>,
    key: Seq<char>,
    node: Node,
)
    requires
        entries.dom().finite(),
        !entries.contains_key(key),
    ensures
        entries.insert(key, node).len() == entries.len() + 1,
        lookup(entries.insert(key, node), key) == Some(node),
{
}

/// A lookup finds nothing exactly where the key is absent: in an empty tree,
/// after the key was removed, and for every key that was never inserted.  A
/// lookup that finds a null has found a key that holds one.
pub proof fn law_missing_key_is_not_found(entries: Map<Seq<char>, Node>, key: Seq<char>)
    ensures
        lookup(Map::empty(), key) is None,
        lookup(entries.remove(key), key) is None,
        lookup(entries, key) is None <==> !entries.contains_key(key),
        lookup(entries, key) == Some(Node::Null) ==> entries.contains_key(key) && entries[key]
            == Node::Null,
{
}

/// A value that holds a number projects to that number and to nothing else:
/// asked for as a string, a boolean, an array or a tree, it is a mismatch.
pub proof fn law_number_projects_to_number_only(n: u64)
    ensures
        n <= usize::MAX ==> number_of(Node::Number(Numeral::Unsigned(n))) == Some(n as usize),
        text_of(Node::Number(Numeral::Unsigned(n))) is None,
        bool_of(Node::Number(Numeral::Unsigned(n))) is None,
        texts_of(Node::Number(Numeral::Unsigned(n))) is None,
        entries_of(Node::Number(Numeral::Unsigned(n))) is None,
{
}

} // verus!
