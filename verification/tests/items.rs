use catalog_api::item::{AttributeValue, Item, ResultSet};

fn text(value: &str) -> AttributeValue {
    AttributeValue::S(value.to_string())
}

#[test]
fn new_item_has_no_attributes() {
    let item = Item::new();
    assert!(item.get("id").is_none());
    assert!(item.attributes().is_empty());
}

#[test]
fn insert_then_get_returns_the_value() {
    let mut item = Item::new();
    item.insert("id".to_string(), text("c1"));
    item.insert("stock".to_string(), AttributeValue::N("12".to_string()));
    assert_eq!(item.get("id"), Some(&text("c1")));
    assert_eq!(item.get("stock"), Some(&AttributeValue::N("12".to_string())));
    assert_eq!(item.get("name"), None);
    assert_eq!(item.attributes().len(), 2);
}

#[test]
fn insert_replaces_the_value_of_a_known_name() {
    let mut item = Item::new();
    item.insert("id".to_string(), text("c1"));
    item.insert("name".to_string(), text("Shoes"));
    item.insert("id".to_string(), text("c2"));
    assert_eq!(item.get("id"), Some(&text("c2")));
    assert_eq!(item.get("name"), Some(&text("Shoes")));
    assert_eq!(item.attributes().len(), 2);
}

#[test]
fn names_are_told_apart_by_every_character() {
    let mut item = Item::new();
    item.insert("id".to_string(), text("a"));
    item.insert("id2".to_string(), text("b"));
    item.insert("".to_string(), text("c"));
    assert_eq!(item.get("id"), Some(&text("a")));
    assert_eq!(item.get("id2"), Some(&text("b")));
    assert_eq!(item.get(""), Some(&text("c")));
    assert_eq!(item.get("i"), None);
}

#[test]
fn get_string_reads_strings_only() {
    let mut item = Item::new();
    item.insert("id".to_string(), text("c1"));
    item.insert("count".to_string(), AttributeValue::N("3".to_string()));
    item.insert("live".to_string(), AttributeValue::Bool(true));
    item.insert("gone".to_string(), AttributeValue::Null);
    item.insert("tags".to_string(), AttributeValue::Other);
    assert_eq!(item.get_string("id"), Some(&"c1".to_string()));
    assert_eq!(item.get_string("count"), None);
    assert_eq!(item.get_string("live"), None);
    assert_eq!(item.get_string("gone"), None);
    assert_eq!(item.get_string("tags"), None);
    assert_eq!(item.get_string("absent"), None);
}

#[test]
fn as_s_is_some_for_a_string_value_only() {
    assert_eq!(text("x").as_s(), Some(&"x".to_string()));
    assert_eq!(AttributeValue::N("1".to_string()).as_s(), None);
    assert_eq!(AttributeValue::Bool(false).as_s(), None);
    assert_eq!(AttributeValue::Null.as_s(), None);
    assert_eq!(AttributeValue::Other.as_s(), None);
}

#[test]
fn a_cloned_item_holds_the_same_attributes() {
    let mut item = Item::new();
    item.insert("id".to_string(), text("c1"));
    item.insert("live".to_string(), AttributeValue::Bool(true));
    let copy = item.clone();
    item.insert("id".to_string(), text("changed"));
    assert_eq!(copy.get("id"), Some(&text("c1")));
    assert_eq!(copy.get("live"), Some(&AttributeValue::Bool(true)));
    assert_eq!(copy.attributes().len(), 2);
}

#[test]
fn a_cloned_value_equals_the_value() {
    assert_eq!(text("x").clone(), text("x"));
    assert_eq!(AttributeValue::N("7".to_string()).clone(), AttributeValue::N("7".to_string()));
    assert_eq!(AttributeValue::Bool(true).clone(), AttributeValue::Bool(true));
    assert_eq!(AttributeValue::Null.clone(), AttributeValue::Null);
    assert_eq!(AttributeValue::Other.clone(), AttributeValue::Other);
}

#[test]
fn the_empty_result_set_has_no_items() {
    assert!(ResultSet::empty().items.is_empty());
}

#[test]
fn len_counts_each_name_once() {
    let mut item = Item::new();
    assert_eq!(item.len(), 0);
    assert!(item.is_empty());
    item.insert("id".to_string(), text("c1"));
    item.insert("name".to_string(), text("Shoes"));
    assert_eq!(item.len(), 2);
    assert!(!item.is_empty());
    item.insert("id".to_string(), text("c2"));
    assert_eq!(item.len(), 2);
}
