//! Rows of the order tables, the body of the checkout request, and the
//! priced line that checkout reads from a cart.

use vstd::prelude::*;

verus! {

/// The body of a checkout request.
#[derive(Debug, Clone, Copy, PartialEq, Eq, Structural)]
pub struct CheckOut {
    pub cart_id: u128,
}

/// A row of the orders table.
#[derive(Debug, Clone, PartialEq, Eq)]
pub struct Order {
    pub id: u128,
    pub user_id: u128,
    /// The payment processor's reference for the session that pays this order.
    pub payment_id: String,
    pub status: String,
    /// In minor currency units.
    pub total_amount: i64,
    pub currency: String,
    pub created_at: i64,
}

pub struct OrderView {
    pub id: u128,
    pub user_id: u128,
    pub payment_id: Seq<char>,
    pub status: Seq<char>,
    pub total_amount: i64,
    pub currency: Seq<char>,
    pub created_at: i64,
}

impl View for Order {
    type V = OrderView;

    open spec fn view(&self) -> OrderView {
        OrderView {
            id: self.id,
            user_id: self.user_id,
            payment_id: self.payment_id@,
            status: self.status@,
            total_amount: self.total_amount,
            currency: self.currency@,
            created_at: self.created_at,
        }
    }
}

/// A row of the order-items table.
#[derive(Debug, Clone, Copy, PartialEq, Eq, Structural)]
pub struct OrderItem {
    pub id: u128,
    pub order_id: u128,
    pub product_id: u128,
    pub quantity: i32,
    pub price: i64,
}

/// One item of a cart joined with its product, priced in minor currency
/// units by whoever read the row.
#[derive(Debug, Clone, PartialEq, Eq)]
pub struct CheckoutLine {
    pub name: String,
    /// The price of one unit, rounded to the nearest minor unit.
    pub unit_amount: i64,
    pub quantity: i32,
    /// The price of the whole line (unit price times quantity), rounded to
    /// the nearest minor unit.
    pub amount: i64,
}

pub struct CheckoutLineView {
    pub name: Seq<char>,
    pub unit_amount: i64,
    pub quantity: i32,
    pub amount: i64,
}

impl View for CheckoutLine {
    type V = CheckoutLineView;

    open spec fn view(&self) -> CheckoutLineView {
        CheckoutLineView {
            name: self.name@,
            unit_amount: self.unit_amount,
            quantity: self.quantity,
            amount: self.amount,
        }
    }
}

/// The views of a list of lines, in order.
pub open spec fn line_views(lines: Seq<CheckoutLine>) -> Seq<CheckoutLineView> {
    Seq::new(lines.len(), |i: int| lines[i]@)
}

} // verus!
