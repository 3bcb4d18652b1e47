use dino::{DecodeError, Tree};

#[test]
fn new_tree_is_empty() {
    let tree = Tree::new();
    assert_eq!(tree.len(), 0);
    assert!(!tree.contains_key("key"));
    assert_eq!(tree.display(), "{}");
}

#[test]
fn round_trip_through_text_keeps_the_tree() {
    let mut tree = Tree::new();
    tree.insert("name", "dino");
    tree.insert_number("count", 42);
    tree.insert_bool("flag", false);
    tree.insert_array("list", vec!["x", "y", "z"]);
    let mut sub = Tree::new();
    sub.insert("inner", "value");
    sub.insert_number("depth", 1);
    tree.insert_tree("sub", sub);
    tree.insert("temp", "gone");
    tree.remove("temp");

    let text = tree.display();
    let back = Tree::from(&text).unwrap();
    assert_eq!(back.len(), tree.len());
    assert_eq!(back.display(), text);
    assert_eq!(back.find("name").unwrap().to_string(), Ok("dino".to_string()));
    assert_eq!(back.find("count").unwrap().to_number(), Ok(42));
    assert_eq!(back.find("flag").unwrap().to_bool(), Ok(false));
    assert_eq!(
        back.find("list").unwrap().to_vec(),
        Ok(vec!["x".to_string(), "y".to_string(), "z".to_string()])
    );
    let inner = back.find("sub").unwrap().to_tree().unwrap();
    assert_eq!(inner.len(), 2);
    assert_eq!(inner.find("inner").unwrap().to_string(), Ok("value".to_string()));
    assert_eq!(inner.find("depth").unwrap().to_number(), Ok(1));
    assert!(!back.contains_key("temp"));
}

#[test]
fn removing_an_absent_key_changes_nothing() {
    let mut tree = Tree::new();
    tree.insert("a", "1");
    tree.insert("b", "2");
    let before = tree.display();
    tree.remove("missing");
    assert_eq!(tree.len(), 2);
    assert_eq!(tree.display(), before);
    tree.remove("a");
    tree.remove("a");
    assert_eq!(tree.len(), 1);
    assert_eq!(tree.display(), "{\n  \"b\": \"2\"\n}");
}

#[test]
fn inserting_an_existing_key_overwrites_it() {
    let mut tree = Tree::new();
    tree.insert("a", "1");
    tree.insert("b", "2");
    tree.insert("a", "3");
    assert_eq!(tree.len(), 2);
    assert_eq!(tree.find("a").unwrap().display(), "3");
    assert_eq!(tree.find("b").unwrap().display(), "2");
    tree.insert_number("a", 9);
    assert_eq!(tree.len(), 2);
    assert_eq!(tree.find("a").unwrap().to_number(), Ok(9));
    assert!(tree.find("a").unwrap().to_string().is_err());
}

#[test]
fn missing_key_is_an_error_that_names_the_key() {
    let mut tree = Tree::new();
    let error = tree.find("missing").unwrap_err();
    assert_eq!(error.key, "missing");
    assert_eq!(
        error.message(),
        "The key `missing` does not exist in the database. You might want to create this or handle the error!"
    );
    tree.insert("missing", "now here");
    assert!(tree.find("missing").is_ok());
    tree.remove("missing");
    assert!(tree.find("missing").is_err());
}

#[test]
fn from_reads_an_object() {
    let tree = Tree::from("{\"b\": \"c\", \"n\": 5, \"t\": {\"x\": true}}").unwrap();
    assert_eq!(tree.len(), 3);
    assert!(tree.contains_key("b"));
    assert_eq!(tree.find("b").unwrap().display(), "c");
    assert_eq!(tree.find("n").unwrap().to_number(), Ok(5));
    let inner = tree.find("t").unwrap().to_tree().unwrap();
    assert_eq!(inner.find("x").unwrap().to_bool(), Ok(true));
    assert_eq!(Tree::from("{}").unwrap().len(), 0);
}

#[test]
fn from_rejects_malformed_text() {
    assert_eq!(Tree::from("{\"a\": 1").unwrap_err(), DecodeError::Malformed);
    assert_eq!(Tree::from("").unwrap_err(), DecodeError::Malformed);
    assert_eq!(Tree::from("{\"a\": 1} trailing").unwrap_err(), DecodeError::Malformed);
}

#[test]
fn from_rejects_a_root_that_is_not_an_object() {
    assert_eq!(Tree::from("[\"a\"]").unwrap_err(), DecodeError::NotAnObject);
    assert_eq!(Tree::from("\"text\"").unwrap_err(), DecodeError::NotAnObject);
    assert_eq!(Tree::from("7").unwrap_err(), DecodeError::NotAnObject);
    assert_eq!(Tree::from("null").unwrap_err(), DecodeError::NotAnObject);
}

#[test]
fn array_keeps_the_order_of_its_strings() {
    let mut tree = Tree::new();
    tree.insert_array("list", vec!["c", "a", "b"]);
    assert_eq!(tree.len(), 1);
    assert_eq!(
        tree.find("list").unwrap().to_vec(),
        Ok(vec!["c".to_string(), "a".to_string(), "b".to_string()])
    );
    tree.insert_array("none", Vec::new());
    assert_eq!(tree.find("none").unwrap().to_vec(), Ok(Vec::new()));
    assert_eq!(tree.find("none").unwrap().display(), "[]");
}

#[test]
fn inserted_tree_is_a_copy_of_its_own() {
    let mut child = Tree::new();
    child.insert("b", "c");
    let mut parent = Tree::new();
    parent.insert_tree("id", child);
    assert_eq!(parent.len(), 1);

    let mut copy = parent.find("id").unwrap().to_tree().unwrap();
    copy.insert("extra", "x");
    assert_eq!(copy.len(), 2);
    let again = parent.find("id").unwrap().to_tree().unwrap();
    assert_eq!(again.len(), 1);
    assert_eq!(parent.display(), "{\n  \"id\": {\n    \"b\": \"c\"\n  }\n}");
}

#[test]
fn display_lists_keys_in_a_fixed_order() {
    let mut one = Tree::new();
    one.insert("b", "2");
    one.insert("a", "1");
    let mut two = Tree::new();
    two.insert("a", "1");
    two.insert("b", "2");
    assert_eq!(one.display(), two.display());
    assert_eq!(one.display(), "{\n  \"a\": \"1\",\n  \"b\": \"2\"\n}");
}

#[test]
fn a_stored_null_is_found() {
    let tree = Tree::from("{\"nothing\": null}").unwrap();
    assert!(tree.contains_key("nothing"));
    assert_eq!(tree.len(), 1);
    assert_eq!(tree.find("nothing").unwrap().display(), "");
    assert!(tree.find("other").is_err());
}

#[test]
fn from_value_takes_an_object_only() {
    let mut parent = Tree::new();
    let mut child = Tree::new();
    child.insert("b", "c");
    parent.insert_tree("sub", child);
    parent.insert("text", "plain");
    parent.insert_number("n", 3);

    let tree = Tree::from_value(parent.find("sub").unwrap()).unwrap();
    assert_eq!(tree.len(), 1);
    assert_eq!(tree.find("b").unwrap().display(), "c");
    assert_eq!(
        Tree::from_value(parent.find("text").unwrap()).unwrap_err(),
        DecodeError::NotAnObject
    );
    assert_eq!(
        Tree::from_value(parent.find("n").unwrap()).unwrap_err(),
        DecodeError::NotAnObject
    );
}
