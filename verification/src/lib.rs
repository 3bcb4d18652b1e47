//! An embedded single-file document store: a tree of named JSON values that is
//! rewritten in full, pretty-printed, after every change.
//!
//! [`Tree`] is the document, [`DocValue`] what a lookup returns, and
//! [`Database`] the store that keeps a root tree in step with its backing
//! file.  The JSON text itself is read and written by `serde_json`; the module
//! `json` holds what is taken on trust of it.

pub mod database;
pub mod error;
pub mod json;
pub mod laws;
pub mod tree;
pub mod value;

pub use database::Database;
pub use error::{DecodeError, KeyNotFoundError, TypeMismatchError};
pub use tree::Tree;
pub use value::DocValue;
