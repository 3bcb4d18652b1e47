//! The persistent store: one root tree and the image of it that belongs in
//! the backing file.
//!
//! The store itself touches no file.  `load` takes what was read from the
//! file, and every call that changes the tree hands back the text that the
//! file has to hold from then on; the caller truncates the file and writes
//! that text before it does anything else with the store.

use vstd::prelude::*;
use crate::error::{DecodeError, KeyNotFoundError};
use crate::json::{Node, Numeral, json_pretty};
use crate::tree::{Tree, decode, lookup, text_list};
use crate::value::DocValue;

verus! {

/// A store that keeps one tree in step with one file.  It is made with the
/// path of its file and holds no tree until `load` has succeeded; before that
/// only `load` and `is_loaded` may be called.
#[derive(Debug)]
pub struct Database {
    path: String,
    tree: Option<Tree>,
}

impl View for Database {
    type V = Option<Map<Seq<char>, Node>>;

    /// The entries of the root tree, or `None` before the store is loaded.
    closed spec fn view(&self) -> Option<Map<Seq<char>, Node>> {
        match self.tree {
            Some(tree) => Some(tree@),
            None => None,
        }
    }
}

/// The entries that a file with the given contents stands for.  An empty
/// file stands for an empty tree; any other file has to spell an object.
pub open spec fn stored(contents: Seq<char>) -> Result<Map<Seq<char>, Node>, DecodeError> {
    if contents.len() == 0 {
        Ok(Map::empty())
    } else {
        decode(contents)
    }
}

/// The text that the backing file holds for a tree with the given entries:
/// the whole tree, pretty-printed.
pub open spec fn file_image(entries: Map<Seq<char>, Node>) -> Seq<char> {
    json_pretty(Node::Object(entries))
}

impl Database {
    /// The path of the backing file, as text.
    pub closed spec fn path_text(&self) -> Seq<char> {
        self.path@
    }

    /// A store for the file at the path.  Nothing is read yet.
    pub fn new(path: &str) -> (r: Database)
        ensures
            r.path_text() == path@,
            r@ is None,
    {
        Database { path: path.to_owned(), tree: None }
    }

    /// The path of the backing file.
    pub fn path(&self) -> (r: &str)
        ensures
            r@ == self.path_text(),
    {
        self.path.as_str()
    }

    /// Whether `load` has succeeded on this store.
    pub fn is_loaded(&self) -> (r: bool)
        ensures
            r == (self@ is Some),
    {
        self.tree.is_some()
    }

    /// Takes the contents of the backing file as they were read and makes
    /// them the tree of the store.  Where the contents cannot be decoded the
    /// store stays as it was.
    pub fn load(&mut self, contents: &str) -> (r: Result<(), DecodeError>)
        ensures
            match r {
                Ok(_) => final(self)@ is Some && stored(contents@) == Ok::<Map<Seq<char>, Node>, DecodeError>(
                    final(self)@->0,
                ) && final(self)@->0.dom().finite() && final(self).path_text() == old(self).path_text(),
                Err(e) => stored(contents@) == Err::<Map<Seq<char>, Node>, DecodeError>(e) && *final(self)
                    == *old(self),
            },
    {
        if contents.is_empty() {
            self.tree = Some(Tree::new());
            Ok(())
        } else {
            match Tree::from(contents) {
                Ok(tree) => {
                    self.tree = Some(tree);
                    Ok(())
                },
                Err(e) => Err(e),
            }
        }
    }

    /// Stores a string under the key and returns the new file image.
    pub fn insert(&mut self, key: &str, value: &str) -> (image: String)
        requires
            old(self)@ is Some,
        ensures
            final(self)@ == Some(old(self)@->0.insert(key@, Node::Text(value@))),
            final(self).path_text() == old(self).path_text(),
            image@ == file_image(final(self)@->0),
    {
        match &mut self.tree {
            Some(tree) => {
                tree.insert(key, value);
                tree.display()
            },
            None => String::new(),
        }
    }

    /// Stores a number under the key and returns the new file image.
    pub fn insert_number(&mut self, key: &str, value: usize) -> (image: String)
        requires
            old(self)@ is Some,
        ensures
            final(self)@ == Some(old(self)@->0.insert(key@, Node::Number(Numeral::Unsigned(value as u64)))),
            final(self).path_text() == old(self).path_text(),
            image@ == file_image(final(self)@->0),
    {
        match &mut self.tree {
            Some(tree) => {
                tree.insert_number(key, value);
                tree.display()
            },
            None => String::new(),
        }
    }

    /// Stores a boolean under the key and returns the new file image.
    pub fn insert_bool(&mut self, key: &str, value: bool) -> (image: String)
        requires
            old(self)@ is Some,
        ensures
            final(self)@ == Some(old(self)@->0.insert(key@, Node::Bool(value))),
            final(self).path_text() == old(self).path_text(),
            image@ == file_image(final(self)@->0),
    {
        match &mut self.tree {
            Some(tree) => {
                tree.insert_bool(key, value);
                tree.display()
            },
            None => String::new(),
        }
    }

    /// Stores an array of strings under the key and returns the new file
    /// image.
    pub fn insert_array(&mut self, key: &str, value: Vec<&str>) -> (image: String)
        requires
            old(self)@ is Some,
        ensures
            final(self)@ == Some(old(self)@->0.insert(key@, text_list(value@))),
            final(self).path_text() == old(self).path_text(),
            image@ == file_image(final(self)@->0),
    {
        match &mut self.tree {
            Some(tree) => {
                tree.insert_array(key, value);
                tree.display()
            },
            None => String::new(),
        }
    }

    /// Stores a whole tree under the key and returns the new file image.
    /// The tree is moved in and counts as one entry of the root.
    pub fn insert_tree(&mut self, key: &str, value: Tree) -> (image: String)
        requires
            old(self)@ is Some,
        ensures
            final(self)@ == Some(old(self)@->0.insert(key@, Node::Object(value@))),
            final(self).path_text() == old(self).path_text(),
            image@ == file_image(final(self)@->0),
    {
        match &mut self.tree {
            Some(tree) => {
                tree.insert_tree(key, value);
                tree.display()
            },
            None => String::new(),
        }
    }

    /// Takes the key and its value out of the root tree and returns the new
    /// file image.  The tree stays as it was if it does not hold the key; the
    /// image is returned all the same.
    pub fn remove(&mut self, key: &str) -> (image: String)
        requires
            old(self)@ is Some,
        ensures
            final(self)@ == Some(old(self)@->0.remove(key@)),
            !old(self)@->0.contains_key(key@) ==> final(self)@ == old(self)@,
            final(self).path_text() == old(self).path_text(),
            image@ == file_image(final(self)@->0),
    {
        match &mut self.tree {
            Some(tree) => {
                tree.remove(key);
                tree.display()
            },
            None => String::new(),
        }
    }

    /// The value stored under the key in the root tree.  The error names the
    /// key, and comes exactly where the tree does not hold it.
    pub fn find(&self, key: &str) -> (r: Result<DocValue, KeyNotFoundError>)
        requires
            self@ is Some,
        ensures
            match r {
                Ok(v) => lookup(self@->0, key@) == Some(v@),
                Err(e) => lookup(self@->0, key@) is None && e.key@ == key@,
            },
    {
        match &self.tree {
            Some(tree) => tree.find(key),
            None => Err(KeyNotFoundError { key: key.to_owned() }),
        }
    }

    /// Whether the root tree holds the key.
    pub fn contains_key(&self, key: &str) -> (r: bool)
        requires
            self@ is Some,
        ensures
            r == self@->0.contains_key(key@),
    {
        match &self.tree {
            Some(tree) => tree.contains_key(key),
            None => false,
        }
    }

    /// The whole root tree as pretty-printed JSON text: the file image.
    pub fn display(&self) -> (r: String)
        requires
            self@ is Some,
        ensures
            r@ == file_image(self@->0),
    {
        match &self.tree {
            Some(tree) => tree.display(),
            None => String::new(),
        }
    }

    /// The number of entries of the root tree.  A nested tree counts as one.
    pub fn len(&self) -> (r: usize)
        requires
            self@ is Some,
        ensures
            r == self@->0.len(),
    {
        match &self.tree {
            Some(tree) => tree.len(),
            None => 0,
        }
    }
}

} // verus!
