//! The shape in which categories and products are stored.

use crate::item::{string_attribute, Item, ItemView};
use crate::reconstruct::FromItem;
use vstd::prelude::*;

verus! {

/// What is read of a stored category or product: its `id` and its `name`, both strings.
#[derive(Clone, Debug, PartialEq, Eq)]
pub struct CatalogEntry {
    pub id: String,
    pub name: String,
}

/// The mathematical value of a [`CatalogEntry`].
pub ghost struct CatalogEntryView {
    pub id: Seq<char>,
    pub name: Seq<char>,
}

impl View for CatalogEntry {
    type V = CatalogEntryView;

    open spec fn view(&self) -> CatalogEntryView {
        CatalogEntryView { id: self.id@, name: self.name@ }
    }
}

impl FromItem for CatalogEntry {
    /// An item has this shape when its attributes `id` and `name` both hold strings.
    /// Other attributes are passed over.
    open spec fn decoded(item: ItemView) -> Option<CatalogEntryView> {
        match (string_attribute(item, "id"@), string_attribute(item, "name"@)) {
            (Some(id), Some(name)) => Some(CatalogEntryView { id, name }),
            _ => None,
        }
    }

    fn from_item(item: &Item) -> (r: Option<CatalogEntry>) {
        match item.get_string("id") {
            Some(id) => match item.get_string("name") {
                Some(name) => Some(CatalogEntry { id: id.clone(), name: name.clone() }),
                None => None,
            },
            None => None,
        }
    }
}

} // verus!
