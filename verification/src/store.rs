//! A model of what lies behind the flows, for stating what a flow brings
//! about: the tables as sequences of rows, what each statement answers on
//! them and what it leaves behind. The model never fails. How a cart is
//! priced, which products are like a pattern and what the payment processor
//! answers it takes as given.

use crate::auth::models::UserView;
use crate::cart::models::{Cart, CartItem};
use crate::db::{DbReplyView, DbRequestView};
use crate::flow::{ActionView, EventView, StageView, StepView};
use crate::order::models::{CheckoutLineView, OrderView};
use crate::order::payment::PaymentOutcomeView;
use crate::product::models::ProductView;
use crate::routes::models::HttpReplyView;
use vstd::prelude::*;

verus! {

pub struct Tables {
    pub users: Seq<UserView>,
    pub carts: Seq<Cart>,
    pub items: Seq<CartItem>,
    pub orders: Seq<OrderView>,
    pub products: Seq<ProductView>,
}

/// What the model takes as given while one request is served: the
/// identifier and the instant that the database gives an inserted row, the
/// priced lines that it reads for a cart, the products that it finds like a
/// pattern, and the answer of the payment processor.
pub struct Outside {
    pub id: u128,
    pub now: i64,
    pub lines: Seq<CheckoutLineView>,
    pub found: Seq<ProductView>,
    pub payment: PaymentOutcomeView,
}

/// A user of that name among the rows, if there is one.
pub open spec fn user_named(users: Seq<UserView>, username: Seq<char>) -> Option<UserView> {
    if exists|i: int| 0 <= i < users.len() && (#[trigger] users[i]).username == username {
        Some(
            users[choose|i: int|
                0 <= i < users.len() && (#[trigger] users[i]).username == username],
        )
    } else {
        None
    }
}

/// A cart of that user among the rows, if there is one.
pub open spec fn cart_owned(carts: Seq<Cart>, user_id: u128) -> Option<Cart> {
    if exists|i: int| 0 <= i < carts.len() && (#[trigger] carts[i]).user_id == user_id {
        Some(carts[choose|i: int| 0 <= i < carts.len() && (#[trigger] carts[i]).user_id == user_id])
    } else {
        None
    }
}

/// An item of that cart for that product among the rows, if there is one.
pub open spec fn item_held(items: Seq<CartItem>, cart_id: u128, product_id: u128) -> Option<
    CartItem,
> {
    if exists|i: int| 0 <= i < items.len() && is_item_of(#[trigger] items[i], cart_id, product_id) {
        Some(
            items[choose|i: int|
                0 <= i < items.len() && is_item_of(#[trigger] items[i], cart_id, product_id)],
        )
    } else {
        None
    }
}

/// A product with that identifier among the rows, if there is one.
pub open spec fn product_with(products: Seq<ProductView>, id: u128) -> Option<ProductView> {
    if exists|i: int| 0 <= i < products.len() && (#[trigger] products[i]).id == id {
        Some(products[choose|i: int| 0 <= i < products.len() && (#[trigger] products[i]).id == id])
    } else {
        None
    }
}

impl Tables {
    /// A user of that name, if there is one.
    pub open spec fn find_user(self, username: Seq<char>) -> Option<UserView> {
        user_named(self.users, username)
    }

    /// A cart of that user, if there is one.
    pub open spec fn find_cart(self, user_id: u128) -> Option<Cart> {
        cart_owned(self.carts, user_id)
    }

    /// An item of that cart for that product, if there is one.
    pub open spec fn find_item(self, cart_id: u128, product_id: u128) -> Option<CartItem> {
        item_held(self.items, cart_id, product_id)
    }

    /// No user owns two carts.
    pub open spec fn one_cart_each(self) -> bool {
        forall|i: int, j: int|
            0 <= i < j < self.carts.len() ==> (#[trigger] self.carts[i]).user_id != (
            #[trigger] self.carts[j]).user_id
    }

    /// What the database answers to a statement.
    pub open spec fn answer(self, request: DbRequestView, outside: Outside) -> DbReplyView {
        match request {
            DbRequestView::FindUser { username } => DbReplyView::User(self.find_user(username)),
            DbRequestView::FindCart { user_id } => DbReplyView::Cart(self.find_cart(user_id)),
            DbRequestView::ListCartItems { cart_id } => DbReplyView::Items(
                self.items.filter(in_cart(cart_id)),
            ),
            DbRequestView::FindCartItem { cart_id, product_id } => DbReplyView::Item(
                self.find_item(cart_id, product_id),
            ),
            DbRequestView::InsertUser { .. } => DbReplyView::Done,
            DbRequestView::InsertCart { .. } => DbReplyView::Done,
            DbRequestView::InsertCartItem { .. } => DbReplyView::Done,
            DbRequestView::DeleteCartItems { .. } => DbReplyView::Done,
            DbRequestView::DeleteCartItem { .. } => DbReplyView::Done,
            DbRequestView::UpdateCartItem { .. } => DbReplyView::Done,
            DbRequestView::InsertOrder { .. } => DbReplyView::Done,
            DbRequestView::ListCheckoutLines { .. } => DbReplyView::Lines(outside.lines),
            DbRequestView::ListProducts => DbReplyView::Products(self.products),
            DbRequestView::FindProduct { id } => DbReplyView::Product(
                product_with(self.products, id),
            ),
            DbRequestView::SearchProducts { .. } => DbReplyView::Products(outside.found),
        }
    }

    /// The tables after a statement.
    pub open spec fn after(self, request: DbRequestView, outside: Outside) -> Tables {
        match request {
            DbRequestView::InsertUser { username, password } => Tables {
                users: self.users.push(UserView { id: outside.id, username, password }),
                ..self
            },
            DbRequestView::InsertCart { user_id } => Tables {
                carts: self.carts.push(Cart { id: outside.id, user_id, created_at: outside.now }),
                ..self
            },
            DbRequestView::InsertCartItem { cart_id, product_id, quantity } => Tables {
                items: self.items.push(
                    CartItem {
                        id: outside.id,
                        cart_id,
                        product_id,
                        quantity,
                        added_at: outside.now,
                    },
                ),
                ..self
            },
            DbRequestView::DeleteCartItems { cart_id } => Tables {
                items: self.items.filter(outside_cart(cart_id)),
                ..self
            },
            DbRequestView::DeleteCartItem { cart_id, product_id } => Tables {
                items: self.items.filter(other_item(cart_id, product_id)),
                ..self
            },
            DbRequestView::UpdateCartItem { cart_id, product_id, quantity } => Tables {
                items: self.items.map_values(with_quantity(cart_id, product_id, quantity)),
                ..self
            },
            DbRequestView::InsertOrder {
                user_id,
                payment_id,
                status,
                total_amount,
                currency,
            } => Tables {
                orders: self.orders.push(
                    OrderView {
                        id: outside.id,
                        user_id,
                        payment_id,
                        status,
                        total_amount,
                        currency,
                        created_at: outside.now,
                    },
                ),
                ..self
            },
            _ => self,
        }
    }
}

/// Whether a row is an item of that cart for that product.
pub open spec fn is_item_of(item: CartItem, cart_id: u128, product_id: u128) -> bool {
    item.cart_id == cart_id && item.product_id == product_id
}

/// The rows of that cart.
pub open spec fn in_cart(cart_id: u128) -> spec_fn(CartItem) -> bool {
    |item: CartItem| item.cart_id == cart_id
}

/// The rows of other carts.
pub open spec fn outside_cart(cart_id: u128) -> spec_fn(CartItem) -> bool {
    |item: CartItem| item.cart_id != cart_id
}

/// The rows that are not items of that cart for that product.
pub open spec fn other_item(cart_id: u128, product_id: u128) -> spec_fn(CartItem) -> bool {
    |item: CartItem| !is_item_of(item, cart_id, product_id)
}

/// Each row as it is after the items of that cart for that product were
/// given the quantity.
pub open spec fn with_quantity(cart_id: u128, product_id: u128, quantity: i32) -> spec_fn(
    CartItem,
) -> CartItem {
    |item: CartItem|
        if is_item_of(item, cart_id, product_id) {
            CartItem { quantity, ..item }
        } else {
            item
        }
}

/// How serving a request ended: the tables it left, and the reply, if the
/// flow came to one.
pub struct Outcome {
    pub tables: Tables,
    pub reply: Option<HttpReplyView>,
}

/// Drives a flow from a stage and an event, at most `budget` steps far:
/// the modelled database answers each statement, the given answer of the
/// payment processor each session. It stops without a reply where the flow
/// takes no step.
pub open spec fn run(
    flow: spec_fn(StageView, EventView) -> Option<StepView>,
    tables: Tables,
    stage: StageView,
    event: EventView,
    outside: Outside,
    budget: nat,
) -> Outcome
    decreases budget,
{
    if budget == 0 {
        Outcome { tables, reply: None }
    } else {
        match flow(stage, event) {
            Some(StepView { stage: next, action: ActionView::Query(request) }) => {
                run(
                    flow,
                    tables.after(request, outside),
                    next,
                    EventView::Db(tables.answer(request, outside)),
                    outside,
                    (budget - 1) as nat,
                )
            },
            Some(StepView { stage: next, action: ActionView::Pay { .. } }) => run(
                flow,
                tables,
                next,
                EventView::Payment(outside.payment),
                outside,
                (budget - 1) as nat,
            ),
            Some(StepView { stage: next, action: ActionView::Respond(reply) }) => Outcome {
                tables,
                reply: Some(reply),
            },
            _ => Outcome { tables, reply: None },
        }
    }
}

/// Serves one request from its arrival on. No flow takes more than five
/// steps.
pub open spec fn serve(
    flow: spec_fn(StageView, EventView) -> Option<StepView>,
    tables: Tables,
    outside: Outside,
) -> Outcome {
    run(flow, tables, StageView::Start, EventView::Begin, outside, 5)
}

} // verus!
