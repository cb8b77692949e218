//! The statements that the flows put to the database, and the answers they
//! take. Running a statement is the caller's part.

use crate::auth::models::{User, UserView};
use crate::cart::models::{Cart, CartItem};
use crate::order::models::{line_views, CheckoutLine, CheckoutLineView};
use crate::product::models::{product_views, Product, ProductView};
use vstd::prelude::*;

verus! {

/// One statement, with the values bound to it.
#[derive(Debug, Clone, PartialEq, Eq)]
pub enum DbRequest {
    /// The user of that name.
    FindUser { username: String },
    InsertUser { username: String, password: String },
    /// The cart of that user.
    FindCart { user_id: u128 },
    InsertCart { user_id: u128 },
    /// All items of that cart.
    ListCartItems { cart_id: u128 },
    InsertCartItem { cart_id: u128, product_id: u128, quantity: i32 },
    /// Removes all items of that cart.
    DeleteCartItems { cart_id: u128 },
    /// The item of that cart for that product.
    FindCartItem { cart_id: u128, product_id: u128 },
    /// Removes the items of that cart for that product.
    DeleteCartItem { cart_id: u128, product_id: u128 },
    /// Sets the quantity of the items of that cart for that product.
    UpdateCartItem { cart_id: u128, product_id: u128, quantity: i32 },
    /// The items of that cart, each joined with its product and priced.
    ListCheckoutLines { cart_id: u128 },
    InsertOrder {
        user_id: u128,
        payment_id: String,
        status: String,
        total_amount: i64,
        currency: String,
    },
    ListProducts,
    FindProduct { id: u128 },
    /// The products whose name or description is like the pattern, letter
    /// case aside.
    SearchProducts { pattern: String },
}

pub enum DbRequestView {
    FindUser { username: Seq<char> },
    InsertUser { username: Seq<char>, password: Seq<char> },
    FindCart { user_id: u128 },
    InsertCart { user_id: u128 },
    ListCartItems { cart_id: u128 },
    InsertCartItem { cart_id: u128, product_id: u128, quantity: i32 },
    DeleteCartItems { cart_id: u128 },
    FindCartItem { cart_id: u128, product_id: u128 },
    DeleteCartItem { cart_id: u128, product_id: u128 },
    UpdateCartItem { cart_id: u128, product_id: u128, quantity: i32 },
    ListCheckoutLines { cart_id: u128 },
    InsertOrder {
        user_id: u128,
        payment_id: Seq<char>,
        status: Seq<char>,
        total_amount: i64,
        currency: Seq<char>,
    },
    ListProducts,
    FindProduct { id: u128 },
    SearchProducts { pattern: Seq<char> },
}

impl View for DbRequest {
    type V = DbRequestView;

    open spec fn view(&self) -> DbRequestView {
        match self {
            DbRequest::FindUser { username } => DbRequestView::FindUser { username: username@ },
            DbRequest::InsertUser { username, password } => DbRequestView::InsertUser {
                username: username@,
                password: password@,
            },
            DbRequest::FindCart { user_id } => DbRequestView::FindCart { user_id: *user_id },
            DbRequest::InsertCart { user_id } => DbRequestView::InsertCart { user_id: *user_id },
            DbRequest::ListCartItems { cart_id } => DbRequestView::ListCartItems {
                cart_id: *cart_id,
            },
            DbRequest::InsertCartItem { cart_id, product_id, quantity } => {
                DbRequestView::InsertCartItem {
                    cart_id: *cart_id,
                    product_id: *product_id,
                    quantity: *quantity,
                }
            },
            DbRequest::DeleteCartItems { cart_id } => DbRequestView::DeleteCartItems {
                cart_id: *cart_id,
            },
            DbRequest::FindCartItem { cart_id, product_id } => DbRequestView::FindCartItem {
                cart_id: *cart_id,
                product_id: *product_id,
            },
            DbRequest::DeleteCartItem { cart_id, product_id } => DbRequestView::DeleteCartItem {
                cart_id: *cart_id,
                product_id: *product_id,
            },
            DbRequest::UpdateCartItem { cart_id, product_id, quantity } => {
                DbRequestView::UpdateCartItem {
                    cart_id: *cart_id,
                    product_id: *product_id,
                    quantity: *quantity,
                }
            },
            DbRequest::ListCheckoutLines { cart_id } => DbRequestView::ListCheckoutLines {
                cart_id: *cart_id,
            },
            DbRequest::InsertOrder { user_id, payment_id, status, total_amount, currency } => {
                DbRequestView::InsertOrder {
                    user_id: *user_id,
                    payment_id: payment_id@,
                    status: status@,
                    total_amount: *total_amount,
                    currency: currency@,
                }
            },
            DbRequest::ListProducts => DbRequestView::ListProducts,
            DbRequest::FindProduct { id } => DbRequestView::FindProduct { id: *id },
            DbRequest::SearchProducts { pattern } => DbRequestView::SearchProducts {
                pattern: pattern@,
            },
        }
    }
}

/// What a statement came back with.
#[derive(Debug, Clone, PartialEq, Eq)]
pub enum DbReply {
    /// The user asked for, if there is one.
    User(Option<User>),
    /// The cart asked for, if there is one.
    Cart(Option<Cart>),
    /// The item asked for, if there is one.
    Item(Option<CartItem>),
    Items(Vec<CartItem>),
    Lines(Vec<CheckoutLine>),
    /// The product asked for, if there is one.
    Product(Option<Product>),
    Products(Vec<Product>),
    /// The statement changed what it was to change.
    Done,
    /// The statement failed; the text is the database's.
    Failed(String),
}

pub enum DbReplyView {
    User(Option<UserView>),
    Cart(Option<Cart>),
    Item(Option<CartItem>),
    Items(Seq<CartItem>),
    Lines(Seq<CheckoutLineView>),
    Product(Option<ProductView>),
    Products(Seq<ProductView>),
    Done,
    Failed(Seq<char>),
}

impl View for DbReply {
    type V = DbReplyView;

    open spec fn view(&self) -> DbReplyView {
        match self {
            DbReply::User(found) => DbReplyView::User(
                match found {
                    Some(user) => Some(user@),
                    None => None,
                },
            ),
            DbReply::Cart(found) => DbReplyView::Cart(*found),
            DbReply::Item(found) => DbReplyView::Item(*found),
            DbReply::Items(items) => DbReplyView::Items(items@),
            DbReply::Lines(lines) => DbReplyView::Lines(line_views(lines@)),
            DbReply::Product(found) => DbReplyView::Product(
                match found {
                    Some(product) => Some(product@),
                    None => None,
                },
            ),
            DbReply::Products(products) => DbReplyView::Products(product_views(products@)),
            DbReply::Done => DbReplyView::Done,
            DbReply::Failed(message) => DbReplyView::Failed(message@),
        }
    }
}

} // verus!
