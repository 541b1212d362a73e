use catalog_api::error::{ApiError, ErrorKind};

#[test]
fn new_keeps_kind_and_text() {
    let e = ApiError::new(ErrorKind::NotFound, "nothing here");
    assert_eq!(e.kind, ErrorKind::NotFound);
    assert_eq!(e.message, "nothing here");
}

#[test]
fn deserialization_failed_has_its_text() {
    let e = ApiError::deserialization_failed();
    assert_eq!(e.kind, ErrorKind::DeserializationFailed);
    assert_eq!(e.message, "Error deserializing data");
}

#[test]
fn no_items_has_its_text() {
    let e = ApiError::no_items();
    assert_eq!(e.kind, ErrorKind::NotFound);
    assert_eq!(e.message, "No items returned");
}

#[test]
fn too_many_items_has_its_text() {
    let e = ApiError::too_many_items();
    assert_eq!(e.kind, ErrorKind::MultipleMatches);
    assert_eq!(e.message, "More than one item returned");
}

#[test]
fn category_not_found_has_its_text() {
    let e = ApiError::category_not_found();
    assert_eq!(e.kind, ErrorKind::NotFound);
    assert_eq!(e.message, "Looks like this category doesn't exist");
}

#[test]
fn ambiguous_category_has_its_text() {
    let e = ApiError::ambiguous_category();
    assert_eq!(e.kind, ErrorKind::MultipleMatches);
    assert_eq!(e.message, "More than one item found for this category");
}

#[test]
fn query_failed_names_both_keys() {
    let e = ApiError::query_failed("CATEGORY", Some("shoes"));
    assert_eq!(e.kind, ErrorKind::QueryFailed);
    assert_eq!(e.message, "Error querying DDB, CATEGORY, shoes");
}

#[test]
fn query_failed_says_when_there_was_no_sort_key() {
    let e = ApiError::query_failed("PRODUCT", None);
    assert_eq!(e.kind, ErrorKind::QueryFailed);
    assert_eq!(e.message, "Error querying DDB, PRODUCT, no sk");
}

#[test]
fn query_failed_keeps_empty_keys_empty() {
    let e = ApiError::query_failed("", Some(""));
    assert_eq!(e.message, "Error querying DDB, , ");
}
