//! The catalogue row.

use vstd::prelude::*;

verus! {

/// A row of the products table. The library hands products through and
/// never computes with them.
#[derive(Debug, Clone, PartialEq, Eq)]
pub struct Product {
    pub id: u128,
    pub name: String,
    pub description: Option<String>,
    /// The price, as the 64 bits of the double that the catalogue stores.
    pub price_bits: u64,
    pub available: bool,
    /// Microseconds since the epoch.
    pub created_at: i64,
}

pub struct ProductView {
    pub id: u128,
    pub name: Seq<char>,
    pub description: Option<Seq<char>>,
    pub price_bits: u64,
    pub available: bool,
    pub created_at: i64,
}

impl View for Product {
    type V = ProductView;

    open spec fn view(&self) -> ProductView {
        ProductView {
            id: self.id,
            name: self.name@,
            description: match self.description {
                Some(text) => Some(text@),
                None => None,
            },
            price_bits: self.price_bits,
            available: self.available,
            created_at: self.created_at,
        }
    }
}

/// The views of a list of products, in order.
pub open spec fn product_views(products: Seq<Product>) -> Seq<ProductView> {
    Seq::new(products.len(), |i: int| products[i]@)
}

} // verus!
