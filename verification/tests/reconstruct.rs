use catalog_api::entry::CatalogEntry;
use catalog_api::error::ErrorKind;
use catalog_api::item::{AttributeValue, Item, ResultSet};
use catalog_api::reconstruct::{exactly_one, reconstruct_result, reconstruct_results, FromItem};

fn text(value: &str) -> AttributeValue {
    AttributeValue::S(value.to_string())
}

fn stored(id: &str, name: &str) -> Item {
    let mut item = Item::new();
    item.insert("id".to_string(), text(id));
    item.insert("name".to_string(), text(name));
    item
}

fn without_name(id: &str) -> Item {
    let mut item = Item::new();
    item.insert("id".to_string(), text(id));
    item
}

fn entry(id: &str, name: &str) -> CatalogEntry {
    CatalogEntry { id: id.to_string(), name: name.to_string() }
}

#[test]
fn an_entry_is_read_from_id_and_name() {
    assert_eq!(CatalogEntry::from_item(&stored("c1", "Shoes")), Some(entry("c1", "Shoes")));
}

#[test]
fn an_entry_passes_over_other_attributes() {
    let mut item = stored("sku-1", "Boot");
    item.insert("category".to_string(), text("shoes"));
    item.insert("weight".to_string(), AttributeValue::N("2".to_string()));
    assert_eq!(CatalogEntry::from_item(&item), Some(entry("sku-1", "Boot")));
}

#[test]
fn an_entry_needs_both_attributes() {
    assert_eq!(CatalogEntry::from_item(&Item::new()), None);
    assert_eq!(CatalogEntry::from_item(&without_name("c1")), None);
    let mut nameless_id = Item::new();
    nameless_id.insert("name".to_string(), text("Shoes"));
    assert_eq!(CatalogEntry::from_item(&nameless_id), None);
}

#[test]
fn an_entry_needs_both_attributes_to_be_strings() {
    let mut numbered = stored("c1", "Shoes");
    numbered.insert("id".to_string(), AttributeValue::N("1".to_string()));
    assert_eq!(CatalogEntry::from_item(&numbered), None);
    let mut unnamed = stored("c1", "Shoes");
    unnamed.insert("name".to_string(), AttributeValue::Null);
    assert_eq!(CatalogEntry::from_item(&unnamed), None);
}

#[test]
fn reconstruct_results_of_nothing_is_the_empty_list() {
    let records = reconstruct_results::<CatalogEntry>(ResultSet::empty());
    assert_eq!(records, Ok(vec![]));
}

#[test]
fn reconstruct_results_of_one_item_is_one_record() {
    let results = ResultSet { items: vec![stored("c1", "Shoes")] };
    assert_eq!(reconstruct_results::<CatalogEntry>(results), Ok(vec![entry("c1", "Shoes")]));
}

#[test]
fn reconstruct_results_keeps_the_order_of_the_items() {
    let results =
        ResultSet { items: vec![stored("sku-2", "Boot"), stored("sku-1", "Clog"), stored("sku-3", "Pump")] };
    assert_eq!(
        reconstruct_results::<CatalogEntry>(results),
        Ok(vec![entry("sku-2", "Boot"), entry("sku-1", "Clog"), entry("sku-3", "Pump")])
    );
}

#[test]
fn reconstruct_results_fails_on_a_malformed_item() {
    let results = ResultSet { items: vec![without_name("c1")] };
    let e = reconstruct_results::<CatalogEntry>(results).expect_err("no name");
    assert_eq!(e.kind, ErrorKind::DeserializationFailed);
    assert_eq!(e.message, "Error deserializing data");
}

#[test]
fn reconstruct_results_fails_on_a_malformed_item_among_others() {
    let results =
        ResultSet { items: vec![stored("sku-1", "Boot"), stored("sku-2", "Clog"), without_name("sku-3")] };
    let e = reconstruct_results::<CatalogEntry>(results).expect_err("no name");
    assert_eq!(e.kind, ErrorKind::DeserializationFailed);
}

#[test]
fn reconstruct_result_of_nothing_is_not_found() {
    let e = reconstruct_result::<CatalogEntry>(ResultSet::empty()).expect_err("nothing");
    assert_eq!(e.kind, ErrorKind::NotFound);
    assert_eq!(e.message, "No items returned");
}

#[test]
fn reconstruct_result_of_one_item_is_that_record() {
    let results = ResultSet { items: vec![stored("c1", "Shoes")] };
    assert_eq!(reconstruct_result::<CatalogEntry>(results), Ok(entry("c1", "Shoes")));
}

#[test]
fn reconstruct_result_of_two_items_is_multiple_matches() {
    let results = ResultSet { items: vec![stored("c1", "Shoes"), stored("c2", "Shoes too")] };
    let e = reconstruct_result::<CatalogEntry>(results).expect_err("two");
    assert_eq!(e.kind, ErrorKind::MultipleMatches);
    assert_eq!(e.message, "More than one item returned");
}

#[test]
fn reconstruct_result_of_many_items_is_multiple_matches() {
    let items = (0..5).map(|i| stored(&format!("c{i}"), "Shoes")).collect();
    let e = reconstruct_result::<CatalogEntry>(ResultSet { items }).expect_err("five");
    assert_eq!(e.kind, ErrorKind::MultipleMatches);
}

#[test]
fn reconstruct_result_decodes_before_it_counts() {
    let results = ResultSet { items: vec![stored("c1", "Shoes"), without_name("c2")] };
    let e = reconstruct_result::<CatalogEntry>(results).expect_err("malformed");
    assert_eq!(e.kind, ErrorKind::DeserializationFailed);
    assert_eq!(e.message, "Error deserializing data");
}

#[test]
fn reconstruct_result_fails_on_one_malformed_item() {
    let results = ResultSet { items: vec![without_name("c1")] };
    let e = reconstruct_result::<CatalogEntry>(results).expect_err("malformed");
    assert_eq!(e.kind, ErrorKind::DeserializationFailed);
}

#[test]
fn exactly_one_hands_out_the_sole_record() {
    assert_eq!(exactly_one(vec![7u32]), Ok(7));
    assert_eq!(exactly_one(vec!["only".to_string()]), Ok("only".to_string()));
}

#[test]
fn exactly_one_of_nothing_is_not_found() {
    let e = exactly_one(Vec::<u32>::new()).expect_err("nothing");
    assert_eq!(e.kind, ErrorKind::NotFound);
    assert_eq!(e.message, "No items returned");
}

#[test]
fn exactly_one_of_several_is_multiple_matches() {
    let e = exactly_one(vec![1u32, 2]).expect_err("two");
    assert_eq!(e.kind, ErrorKind::MultipleMatches);
    assert_eq!(e.message, "More than one item returned");
    let e = exactly_one(vec![1u32, 2, 3]).expect_err("three");
    assert_eq!(e.kind, ErrorKind::MultipleMatches);
}
