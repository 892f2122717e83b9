//! Catalog records as the lookups deliver them.

use vstd::prelude::*;

verus! {

/// Code sent in a detail lookup when the selected entry carries none.
///
/// This is a deliberate degraded request, not a validated input: the lookup is
/// still made, and whatever it yields is reported like any other outcome.
pub const UNKNOWN_CODE: &'static str = "unknown";

/// Mathematical value of an optional text field.
pub open spec fn text_view(text: Option<String>) -> Option<Seq<char>> {
    match text {
        Some(s) => Some(s@),
        None => None,
    }
}

/// One entry of a search result list. Both fields may be missing.
#[derive(Debug, Clone, PartialEq, Eq)]
pub struct Product {
    pub code: Option<String>,
    pub name: Option<String>,
}

/// Mathematical value of a [`Product`].
pub struct ProductView {
    pub code: Option<Seq<char>>,
    pub name: Option<Seq<char>>,
}

impl View for Product {
    type V = ProductView;

    open spec fn view(&self) -> ProductView {
        ProductView { code: text_view(self.code), name: text_view(self.name) }
    }
}

impl ProductView {
    /// The code a detail lookup for this entry asks for.
    pub open spec fn request_code(self) -> Seq<char> {
        match self.code {
            Some(code) => code,
            None => UNKNOWN_CODE@,
        }
    }
}

impl Product {
    /// The code a detail lookup for this entry asks for: its own, or
    /// [`UNKNOWN_CODE`] when it has none.
    pub fn request_code(&self) -> (code: String)
        ensures
            code@ == self@.request_code(),
    {
        match &self.code {
            Some(code) => code.clone(),
            None => UNKNOWN_CODE.to_owned(),
        }
    }
}

/// Mathematical value of a result list, entry by entry.
pub open spec fn product_views(products: Seq<Product>) -> Seq<ProductView> {
    products.map_values(|p: Product| p@)
}

/// The full record of one product. Only the code is mandatory.
#[derive(Debug, Clone, PartialEq, Eq)]
pub struct ProductDetails {
    pub code: String,
    pub name: Option<String>,
    pub ingredients_text: Option<String>,
    pub brand: Option<String>,
}

/// Mathematical value of a [`ProductDetails`].
pub struct ProductDetailsView {
    pub code: Seq<char>,
    pub name: Option<Seq<char>>,
    pub ingredients_text: Option<Seq<char>>,
    pub brand: Option<Seq<char>>,
}

impl View for ProductDetails {
    type V = ProductDetailsView;

    open spec fn view(&self) -> ProductDetailsView {
        ProductDetailsView {
            code: self.code@,
            name: text_view(self.name),
            ingredients_text: text_view(self.ingredients_text),
            brand: text_view(self.brand),
        }
    }
}

/// Mathematical value of an optional product record.
pub open spec fn details_view(details: Option<ProductDetails>) -> Option<ProductDetailsView> {
    match details {
        Some(d) => Some(d@),
        None => None,
    }
}

} // verus!
