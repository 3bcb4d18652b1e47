//! The errors that the store hands to its callers.

use vstd::prelude::*;
use vstd::string::StringExecFns;

verus! {

/// The text given to the store is not a JSON document that it can hold.
#[derive(Debug, Clone, Copy, PartialEq, Eq, Structural)]
pub enum DecodeError {
    /// The text is not well-formed JSON.
    Malformed,
    /// The text is well-formed JSON, but its root is not an object.
    NotAnObject,
}

/// A value was asked for as a type that it does not hold.
#[derive(Debug, Clone, Copy, PartialEq, Eq, Structural)]
pub struct TypeMismatchError;

/// A key was looked up that the tree does not hold.
#[derive(Debug)]
pub struct KeyNotFoundError {
    /// The key that was looked up.
    pub key: String,
}

impl KeyNotFoundError {
    /// The text of the message for a missing key.
    pub open spec fn message_text(key: Seq<char>) -> Seq<char> {
        "The key `"@ + key
            + "` does not exist in the database. You might want to create this or handle the error!"@
    }

    /// A message that names the missing key, fit to show to a user.
    pub fn message(&self) -> (r: String)
        ensures
            r@ == Self::message_text(self.key@),
    {
        let mut text = String::from_str("The key `");
        text.append(self.key.as_str());
        text.append(
            "` does not exist in the database. You might want to create this or handle the error!",
        );
        text
    }
}

} // verus!
