//! One handler for each route of the API.
//!
//! A handler shapes the answer to a request out of what the store returned for the
//! request's lookup. The lookups themselves are planned in [`crate::query`].

use crate::decimal::{
    decimal_digits, decimal_value, is_decimal, lemma_decimal_round_trip, to_decimal,
};
use crate::entry::{CatalogEntry, CatalogEntryView};
use crate::error::{
    ambiguous_category, category_not_found, deserialization_failed, ApiError, ApiErrorView,
};
use crate::item::{ItemView, ResultSet};
use crate::random::random_below;
use crate::reconstruct::{decoded_all, reconstruct_results, views_of, FromItem};
use crate::types::{empty_category, Category, CategoryView, Menu, Page, Product, ProductView};
use vstd::prelude::*;

verus! {

/// Placeholder inventories lie below this.
pub const INVENTORY_LIMIT: u32 = 100;

/// Placeholder prices lie below this.
pub const PRICE_LIMIT: u32 = 300;

/// The menus: for now always the one placeholder menu.
pub fn get_menu() -> (menus: Vec<Menu>)
    ensures
        menus@ == seq![(Menu {  })],
{
    let mut menus: Vec<Menu> = Vec::new();
    menus.push(Menu::default());
    assert(menus@ =~= seq![(Menu {  })]);
    menus
}

/// The page with the given handle: for now always the placeholder page, whatever the
/// handle.
pub fn get_page(page_handle: String) -> (page: Page)
    ensures
        page == (Page {  }),
{
    Page::default()
}

/// The pages: for now always the one placeholder page.
pub fn get_pages() -> (pages: Vec<Page>)
    ensures
        pages@ == seq![(Page {  })],
{
    let mut pages: Vec<Page> = Vec::new();
    pages.push(Page::default());
    assert(pages@ =~= seq![(Page {  })]);
    pages
}

/// The categories: for now always the one category whose attributes are all empty.
pub fn get_categories() -> (categories: Vec<Category>)
    ensures
        views_of(categories@) == seq![empty_category()],
{
    let mut categories: Vec<Category> = Vec::new();
    categories.push(Category::default());
    assert(views_of(categories@) =~= seq![empty_category()]);
    categories
}

/// The category that the stored entry stands for when asked for under `handle`. The
/// store has no description of its own: the name serves as title and as description.
pub open spec fn category_from_entry(handle: Seq<char>, entry: CatalogEntryView) -> CategoryView {
    CategoryView {
        path: handle,
        category_id: entry.id,
        title: entry.name,
        description: entry.name,
    }
}

/// The answer to a request for the category `handle`, given the items that the
/// category lookup matched.
pub open spec fn category_of(handle: Seq<char>, items: Seq<ItemView>) -> Result<
    CategoryView,
    ApiErrorView,
> {
    if items.len() == 0 {
        Err(category_not_found())
    } else if items.len() > 1 {
        Err(ambiguous_category())
    } else {
        match CatalogEntry::decoded(items[0]) {
            Some(entry) => Ok(category_from_entry(handle, entry)),
            None => Err(deserialization_failed()),
        }
    }
}

/// The category asked for under `category_handle`, given what the category lookup
/// returned.
///
/// Exactly one item must have matched: none is `NotFound`, several are
/// `MultipleMatches`, and the number of items is judged before the one item is read.
/// The item must hold the strings `id` and `name`, else the call fails with
/// `DeserializationFailed`.
pub fn get_category(category_handle: String, results: ResultSet) -> (r: Result<Category, ApiError>)
    ensures
        match r {
            Ok(category) => category_of(category_handle@, results@) == Ok::<
                CategoryView,
                ApiErrorView,
            >(category@),
            Err(e) => category_of(category_handle@, results@) == Err::<
                CategoryView,
                ApiErrorView,
            >(e@),
        },
{
    if results.items.len() > 1 {
        return Err(ApiError::ambiguous_category());
    }
    if results.items.len() == 0 {
        return Err(ApiError::category_not_found());
    }
    match CatalogEntry::from_item(&results.items[0]) {
        Some(entry) => {
            let title = entry.name.clone();
            Ok(
                Category {
                    path: category_handle,
                    category_id: entry.id,
                    title,
                    description: entry.name,
                },
            )
        },
        None => Err(ApiError::deserialization_failed()),
    }
}

/// The product shown for a stored entry, with the given placeholder inventory and
/// price. Its name serves as description too, and it has no options, variants or images.
pub open spec fn placeholder_product(
    entry: CatalogEntryView,
    inventory: nat,
    price: nat,
) -> ProductView {
    ProductView {
        id: entry.id,
        name: entry.name,
        description: entry.name,
        inventory,
        options: Seq::empty(),
        variants: Seq::empty(),
        price: decimal_digits(price),
        images: Seq::empty(),
    }
}

/// Whether `product` is what is shown for `entry` under some placeholder inventory
/// below [`INVENTORY_LIMIT`] and some placeholder price below [`PRICE_LIMIT`].
pub open spec fn shows_entry(product: ProductView, entry: CatalogEntryView) -> bool {
    exists|inventory: nat, price: nat|
        inventory < INVENTORY_LIMIT && price < PRICE_LIMIT && product == #[trigger] placeholder_product(
            entry,
            inventory,
            price,
        )
}

/// A product shown for an entry copies the entry's id and name, has the name as its
/// description, an inventory below [`INVENTORY_LIMIT`], as price the decimal notation
/// of a number below [`PRICE_LIMIT`], and no options, variants or images.
pub proof fn lemma_shown_product(product: ProductView, entry: CatalogEntryView)
    requires
        shows_entry(product, entry),
    ensures
        product.id == entry.id,
        product.name == entry.name,
        product.description == entry.name,
        product.inventory < INVENTORY_LIMIT,
        is_decimal(product.price),
        decimal_value(product.price) < PRICE_LIMIT,
        product.price == decimal_digits(decimal_value(product.price)),
        product.options.len() == 0,
        product.variants.len() == 0,
        product.images.len() == 0,
{
    let (inventory, price) = choose|inventory: nat, price: nat|
        inventory < INVENTORY_LIMIT && price < PRICE_LIMIT && product == #[trigger] placeholder_product(
            entry,
            inventory,
            price,
        );
    lemma_decimal_round_trip(price);
}

/// Builds the product shown for a stored entry from the placeholder values drawn for it.
pub fn product_from_entry(entry: &CatalogEntry, inventory: u32, price: u32) -> (product: Product)
    ensures
        product@ == placeholder_product(entry@, inventory as nat, price as nat),
{
    Product {
        id: entry.id.clone(),
        name: entry.name.clone(),
        description: entry.name.clone(),
        inventory,
        options: Vec::new(),
        variants: Vec::new(),
        price: to_decimal(price),
        images: Vec::new(),
    }
}

/// The products of a category, given what the products lookup returned: one product
/// for each item, in the items' order.
///
/// Inventory and price are placeholders, not read from the store: each is drawn at
/// random, the inventory below [`INVENTORY_LIMIT`] and the price below
/// [`PRICE_LIMIT`], so two calls on the same items may differ in them. An item that
/// does not hold the strings `id` and `name` fails the call with
/// `DeserializationFailed`.
pub fn get_category_products(results: ResultSet) -> (r: Result<Vec<Product>, ApiError>)
    ensures
        match r {
            Ok(products) => decoded_all::<CatalogEntry>(results@) matches Some(entries)
                && products@.len() == entries.len() && forall|i: int|
                0 <= i < entries.len() ==> shows_entry(#[trigger] products@[i]@, entries[i]),
            Err(e) => decoded_all::<CatalogEntry>(results@) is None && e@
                == deserialization_failed(),
        },
{
    match reconstruct_results::<CatalogEntry>(results) {
        Ok(entries) => {
            let mut products: Vec<Product> = Vec::new();
            let mut i: usize = 0;
            while i < entries.len()
                invariant
                    i <= entries@.len(),
                    products@.len() == i,
                    forall|k: int|
                        0 <= k < i ==> shows_entry(#[trigger] products@[k]@, entries@[k]@),
                decreases entries@.len() - i,
            {
                let inventory: u32 = random_below(INVENTORY_LIMIT);
                let price: u32 = random_below(PRICE_LIMIT);
                let product = product_from_entry(&entries[i], inventory, price);
                assert(shows_entry(product@, entries@[i as int]@)) by {
                    assert(product@ == placeholder_product(
                        entries@[i as int]@,
                        inventory as nat,
                        price as nat,
                    ));
                }
                products.push(product);
                i += 1;
            }
            assert forall|k: int| 0 <= k < entries@.len() implies shows_entry(
                #[trigger] products@[k]@,
                views_of(entries@)[k],
            ) by {
                assert(views_of(entries@)[k] == entries@[k]@);
            }
            Ok(products)
        },
        Err(e) => Err(e),
    }
}

} // verus!
