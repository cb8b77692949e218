//! Rows of the cart tables and the body of the cart requests. Identifiers
//! are the 128-bit values of the rows' UUIDs, instants are microseconds
//! since the epoch.

use vstd::prelude::*;

verus! {

/// A row of the shopping-cart table. A user owns at most one.
#[derive(Debug, Clone, Copy, PartialEq, Eq, Structural)]
pub struct Cart {
    pub id: u128,
    pub user_id: u128,
    pub created_at: i64,
}

/// A row of the cart-items table.
#[derive(Debug, Clone, Copy, PartialEq, Eq, Structural)]
pub struct CartItem {
    pub id: u128,
    pub cart_id: u128,
    pub product_id: u128,
    pub quantity: i32,
    pub added_at: i64,
}

/// A cart together with the rows it holds.
#[derive(Debug, Clone, PartialEq, Eq)]
pub struct CartWithItems {
    pub cart: Cart,
    pub items: Vec<CartItem>,
}

/// The body of the requests that add, change or remove an item.
#[derive(Debug, Clone, Copy, PartialEq, Eq, Structural)]
pub struct AddItem {
    pub cart_id: u128,
    pub product_id: u128,
    pub quantity: i32,
}

} // verus!
