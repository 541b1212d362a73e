//! The records that the API answers with.

use vstd::prelude::*;

verus! {

/// A navigation menu. A placeholder for now: it has no attributes.
#[derive(Clone, Copy, Debug, PartialEq, Eq, Structural)]
pub struct Menu {}

impl Default for Menu {
    fn default() -> (menu: Menu)
        ensures
            menu == (Menu {  }),
    {
        Menu {  }
    }
}

/// A content page. A placeholder for now: it has no attributes.
#[derive(Clone, Copy, Debug, PartialEq, Eq, Structural)]
pub struct Page {}

impl Default for Page {
    fn default() -> (page: Page)
        ensures
            page == (Page {  }),
    {
        Page {  }
    }
}

/// A product category.
#[derive(Clone, Debug, PartialEq, Eq)]
pub struct Category {
    /// The handle under which the category was asked for.
    pub path: String,
    pub category_id: String,
    pub title: String,
    pub description: String,
}

/// The mathematical value of a [`Category`].
pub ghost struct CategoryView {
    pub path: Seq<char>,
    pub category_id: Seq<char>,
    pub title: Seq<char>,
    pub description: Seq<char>,
}

impl View for Category {
    type V = CategoryView;

    open spec fn view(&self) -> CategoryView {
        CategoryView {
            path: self.path@,
            category_id: self.category_id@,
            title: self.title@,
            description: self.description@,
        }
    }
}

/// The category whose attributes are all empty.
pub open spec fn empty_category() -> CategoryView {
    CategoryView {
        path: Seq::empty(),
        category_id: Seq::empty(),
        title: Seq::empty(),
        description: Seq::empty(),
    }
}

impl Default for Category {
    fn default() -> (category: Category)
        ensures
            category@ == empty_category(),
    {
        Category {
            path: String::new(),
            category_id: String::new(),
            title: String::new(),
            description: String::new(),
        }
    }
}

/// A product of the catalog.
#[derive(Clone, Debug, PartialEq, Eq)]
pub struct Product {
    pub id: String,
    pub name: String,
    pub description: String,
    /// The quantity in stock.
    pub inventory: u32,
    pub options: Vec<String>,
    pub variants: Vec<String>,
    /// The price, a number in decimal notation.
    pub price: String,
    pub images: Vec<String>,
}

/// The mathematical value of a [`Product`].
pub ghost struct ProductView {
    pub id: Seq<char>,
    pub name: Seq<char>,
    pub description: Seq<char>,
    pub inventory: nat,
    pub options: Seq<String>,
    pub variants: Seq<String>,
    pub price: Seq<char>,
    pub images: Seq<String>,
}

impl View for Product {
    type V = ProductView;

    open spec fn view(&self) -> ProductView {
        ProductView {
            id: self.id@,
            name: self.name@,
            description: self.description@,
            inventory: self.inventory as nat,
            options: self.options@,
            variants: self.variants@,
            price: self.price@,
            images: self.images@,
        }
    }
}

} // verus!
