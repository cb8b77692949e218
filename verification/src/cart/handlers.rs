//! The cart flows: create the caller's cart, list it, add to it, empty it,
//! and change or remove one product in it.

use crate::auth::models::{AuthenticatedUser, ClaimsView};
use crate::cart::models::AddItem;
use crate::db::{DbReply, DbReplyView, DbRequest, DbRequestView};
use crate::flow::{
    ask, asking, failed, note, reply_with, replying, step_view, Event, EventView, Stage,
    StageView, Step, StepView,
};
use crate::ident::{parse_uuid, uuid_parsed};
use crate::routes::models::{
    json_reply, noted, statement_failed, text_reply, HttpReply, Payload, PayloadView,
    BAD_REQUEST, OK,
};
use vstd::prelude::*;

verus! {

/// The first step of a flow that works on the caller's cart, given what the
/// caller's subject parsed to: look for the cart of that user, or refuse
/// with a 400 where the subject is no identifier.
pub open spec fn cart_lookup_step(user_id: Result<u128, Seq<char>>) -> Option<StepView> {
    match user_id {
        Ok(id) => asking(
            StageView::FindingCart { user_id: id },
            DbRequestView::FindCart { user_id: id },
        ),
        Err(_) => replying(text_reply(BAD_REQUEST, "Invalid user ID format"@)),
    }
}

/// One step of cart creation.
///
/// The caller's cart is looked for. Where there is one, the reply is a 200
/// that says `Conflict` and nothing is written; where there is none, a cart
/// is inserted for the caller and the reply is a 200 that says `Success`. A
/// failed statement is a 500 that quotes the database.
pub open spec fn create_cart_step(user: ClaimsView, stage: StageView, event: EventView) -> Option<
    StepView,
> {
    match (stage, event) {
        (StageView::Start, EventView::Begin) => cart_lookup_step(uuid_parsed(user.sub)),
        (StageView::FindingCart { .. }, EventView::Db(DbReplyView::Cart(Some(_)))) => {
            replying(noted("Conflict"@, "Cart Already Exist"@, "No Data"@))
        },
        (StageView::FindingCart { user_id }, EventView::Db(DbReplyView::Cart(None))) => asking(
            StageView::InsertingCart,
            DbRequestView::InsertCart { user_id },
        ),
        (StageView::FindingCart { .. }, EventView::Db(DbReplyView::Failed(message))) => {
            replying(statement_failed(message))
        },
        (StageView::InsertingCart, EventView::Db(DbReplyView::Done)) => replying(
            noted("Success"@, "Cart Created Successfully"@, "{}"@),
        ),
        (StageView::InsertingCart, EventView::Db(DbReplyView::Failed(message))) => replying(
            statement_failed(message),
        ),
        _ => None,
    }
}

/// One step of listing the caller's cart.
///
/// Without a cart the reply is a 200 that says so and carries no items;
/// with one, its items are read and sent in a 200. A failed statement is a
/// 500 that quotes the database.
pub open spec fn get_cart_items_step(
    user: ClaimsView,
    stage: StageView,
    event: EventView,
) -> Option<StepView> {
    match (stage, event) {
        (StageView::Start, EventView::Begin) => cart_lookup_step(uuid_parsed(user.sub)),
        (StageView::FindingCart { .. }, EventView::Db(DbReplyView::Cart(None))) => {
            replying(noted("Error"@, "Cart to found"@, "no cart"@))
        },
        (StageView::FindingCart { .. }, EventView::Db(DbReplyView::Cart(Some(cart)))) => {
            asking(StageView::ListingItems, DbRequestView::ListCartItems { cart_id: cart.id })
        },
        (StageView::FindingCart { .. }, EventView::Db(DbReplyView::Failed(message))) => {
            replying(statement_failed(message))
        },
        (StageView::ListingItems, EventView::Db(DbReplyView::Items(items))) => replying(
            json_reply(OK, "Success"@, "All crat items"@, PayloadView::CartItems(items)),
        ),
        (StageView::ListingItems, EventView::Db(DbReplyView::Failed(message))) => replying(
            statement_failed(message),
        ),
        _ => None,
    }
}

/// One step of adding to a cart.
///
/// A row is inserted for the cart, product and quantity of the request,
/// whatever the cart holds already. The reply is a 200 either way; its
/// envelope says whether the row was written.
pub open spec fn add_to_cart_step(payload: AddItem, stage: StageView, event: EventView) -> Option<
    StepView,
> {
    match (stage, event) {
        (StageView::Start, EventView::Begin) => asking(
            StageView::InsertingItem,
            DbRequestView::InsertCartItem {
                cart_id: payload.cart_id,
                product_id: payload.product_id,
                quantity: payload.quantity,
            },
        ),
        (StageView::InsertingItem, EventView::Db(DbReplyView::Done)) => replying(
            noted("Success"@, "Item added to the cart successfully"@, "No data"@),
        ),
        (StageView::InsertingItem, EventView::Db(DbReplyView::Failed(_))) => replying(
            noted("Error"@, "Error occurred"@, "No data"@),
        ),
        _ => None,
    }
}

/// One step of emptying the caller's cart.
///
/// Without a cart nothing is written and the reply is a 200 that says so;
/// with one, all its items are removed. A failed statement is a 500 that
/// quotes the database.
pub open spec fn clean_cart_step(user: ClaimsView, stage: StageView, event: EventView) -> Option<
    StepView,
> {
    match (stage, event) {
        (StageView::Start, EventView::Begin) => cart_lookup_step(uuid_parsed(user.sub)),
        (StageView::FindingCart { .. }, EventView::Db(DbReplyView::Cart(None))) => {
            replying(noted("Error"@, "No cart found"@, "No data"@))
        },
        (StageView::FindingCart { .. }, EventView::Db(DbReplyView::Cart(Some(cart)))) => {
            asking(StageView::ClearingItems, DbRequestView::DeleteCartItems { cart_id: cart.id })
        },
        (StageView::FindingCart { .. }, EventView::Db(DbReplyView::Failed(message))) => {
            replying(statement_failed(message))
        },
        (StageView::ClearingItems, EventView::Db(DbReplyView::Done)) => replying(
            noted("Success"@, "Cart cleaned successfully"@, "{}"@),
        ),
        (StageView::ClearingItems, EventView::Db(DbReplyView::Failed(message))) => replying(
            statement_failed(message),
        ),
        _ => None,
    }
}

/// The step that carries out a change of one product in a cart: quantity
/// zero removes the product's rows, a quantity above zero is written over
/// the stored one, and a quantity below zero is refused with a 400 and
/// writes nothing.
pub open spec fn item_change_step(cart_id: u128, payload: AddItem) -> Option<StepView> {
    if payload.quantity == 0 {
        asking(
            StageView::RemovingItem,
            DbRequestView::DeleteCartItem { cart_id, product_id: payload.product_id },
        )
    } else if payload.quantity < 0 {
        replying(text_reply(BAD_REQUEST, "Invalid quantity"@))
    } else {
        asking(
            StageView::UpdatingItem,
            DbRequestView::UpdateCartItem {
                cart_id,
                product_id: payload.product_id,
                quantity: payload.quantity,
            },
        )
    }
}

/// One step of changing or removing a product in the caller's cart.
///
/// The cart is the caller's own, whatever cart the request names. Without a
/// cart, or without the product in it, nothing is written and the reply is
/// a 200 that says so. Otherwise quantity zero removes the product, a
/// quantity above zero replaces the stored one, and a quantity below zero
/// is a 400 that writes nothing. A failed statement is a 500 that quotes
/// the database.
pub open spec fn remove_product_from_cart_step(
    user: ClaimsView,
    payload: AddItem,
    stage: StageView,
    event: EventView,
) -> Option<StepView> {
    match (stage, event) {
        (StageView::Start, EventView::Begin) => cart_lookup_step(uuid_parsed(user.sub)),
        (StageView::FindingCart { .. }, EventView::Db(DbReplyView::Cart(None))) => {
            replying(noted("Error"@, "No cart found"@, "No data"@))
        },
        (StageView::FindingCart { .. }, EventView::Db(DbReplyView::Cart(Some(cart)))) => {
            asking(
                StageView::FindingItem { cart_id: cart.id },
                DbRequestView::FindCartItem { cart_id: cart.id, product_id: payload.product_id },
            )
        },
        (StageView::FindingCart { .. }, EventView::Db(DbReplyView::Failed(message))) => {
            replying(statement_failed(message))
        },
        (StageView::FindingItem { cart_id }, EventView::Db(DbReplyView::Item(Some(_)))) => {
            item_change_step(cart_id, payload)
        },
        (StageView::FindingItem { .. }, EventView::Db(DbReplyView::Item(None))) => {
            replying(noted("Error"@, "Product not found in cart"@, "No data"@))
        },
        (StageView::FindingItem { .. }, EventView::Db(DbReplyView::Failed(message))) => {
            replying(statement_failed(message))
        },
        (StageView::RemovingItem, EventView::Db(DbReplyView::Done)) => replying(
            noted("Success"@, "Product removed from cart"@, "{}"@),
        ),
        (StageView::RemovingItem, EventView::Db(DbReplyView::Failed(message))) => replying(
            statement_failed(message),
        ),
        (StageView::UpdatingItem, EventView::Db(DbReplyView::Done)) => replying(
            noted("Success"@, "Product quantity updated"@, "{}"@),
        ),
        (StageView::UpdatingItem, EventView::Db(DbReplyView::Failed(message))) => replying(
            statement_failed(message),
        ),
        _ => None,
    }
}

/// The first step of a flow that works on the caller's cart, given what the
/// caller's subject parsed to.
pub fn look_up_cart(user_id: Result<u128, String>) -> (step: Option<Step>)
    ensures
        step_view(step) == cart_lookup_step(
            match user_id {
                Ok(id) => Ok(id),
                Err(message) => Err(message@),
            },
        ),
{
    match user_id {
        Ok(id) => ask(Stage::FindingCart { user_id: id }, DbRequest::FindCart { user_id: id }),
        Err(_) => reply_with(HttpReply::text(BAD_REQUEST, "Invalid user ID format".to_owned())),
    }
}

/// One step of cart creation for the caller.
pub fn create_cart(user: &AuthenticatedUser, stage: Stage, event: Event) -> (step: Option<Step>)
    ensures
        step_view(step) == create_cart_step(user@, stage@, event@),
{
    match stage {
        Stage::Start => match event {
            Event::Begin => look_up_cart(parse_uuid(user.claims.sub.as_str())),
            _ => None,
        },
        Stage::FindingCart { user_id } => match event {
            Event::Db(DbReply::Cart(Some(_))) => note("Conflict", "Cart Already Exist", "No Data"),
            Event::Db(DbReply::Cart(None)) => ask(
                Stage::InsertingCart,
                DbRequest::InsertCart { user_id },
            ),
            Event::Db(DbReply::Failed(message)) => failed(message),
            _ => None,
        },
        Stage::InsertingCart => match event {
            Event::Db(DbReply::Done) => note("Success", "Cart Created Successfully", "{}"),
            Event::Db(DbReply::Failed(message)) => failed(message),
            _ => None,
        },
        _ => None,
    }
}

/// One step of listing the caller's cart.
pub fn get_cart_items(user: &AuthenticatedUser, stage: Stage, event: Event) -> (step: Option<
    Step,
>)
    ensures
        step_view(step) == get_cart_items_step(user@, stage@, event@),
{
    match stage {
        Stage::Start => match event {
            Event::Begin => look_up_cart(parse_uuid(user.claims.sub.as_str())),
            _ => None,
        },
        Stage::FindingCart { .. } => match event {
            Event::Db(DbReply::Cart(None)) => note("Error", "Cart to found", "no cart"),
            Event::Db(DbReply::Cart(Some(cart))) => ask(
                Stage::ListingItems,
                DbRequest::ListCartItems { cart_id: cart.id },
            ),
            Event::Db(DbReply::Failed(message)) => failed(message),
            _ => None,
        },
        Stage::ListingItems => match event {
            Event::Db(DbReply::Items(items)) => reply_with(
                HttpReply::json(OK, "Success", "All crat items", Payload::CartItems(items)),
            ),
            Event::Db(DbReply::Failed(message)) => failed(message),
            _ => None,
        },
        _ => None,
    }
}

/// One step of adding to a cart. The caller must have been admitted; who
/// it is plays no part.
pub fn add_to_cart(
    _user: &AuthenticatedUser,
    payload: &AddItem,
    stage: Stage,
    event: Event,
) -> (step: Option<Step>)
    ensures
        step_view(step) == add_to_cart_step(*payload, stage@, event@),
{
    match stage {
        Stage::Start => match event {
            Event::Begin => ask(
                Stage::InsertingItem,
                DbRequest::InsertCartItem {
                    cart_id: payload.cart_id,
                    product_id: payload.product_id,
                    quantity: payload.quantity,
                },
            ),
            _ => None,
        },
        Stage::InsertingItem => match event {
            Event::Db(DbReply::Done) => note(
                "Success",
                "Item added to the cart successfully",
                "No data",
            ),
            Event::Db(DbReply::Failed(_)) => note("Error", "Error occurred", "No data"),
            _ => None,
        },
        _ => None,
    }
}

/// One step of emptying the caller's cart.
pub fn clean_cart(user: &AuthenticatedUser, stage: Stage, event: Event) -> (step: Option<Step>)
    ensures
        step_view(step) == clean_cart_step(user@, stage@, event@),
{
    match stage {
        Stage::Start => match event {
            Event::Begin => look_up_cart(parse_uuid(user.claims.sub.as_str())),
            _ => None,
        },
        Stage::FindingCart { .. } => match event {
            Event::Db(DbReply::Cart(None)) => note("Error", "No cart found", "No data"),
            Event::Db(DbReply::Cart(Some(cart))) => ask(
                Stage::ClearingItems,
                DbRequest::DeleteCartItems { cart_id: cart.id },
            ),
            Event::Db(DbReply::Failed(message)) => failed(message),
            _ => None,
        },
        Stage::ClearingItems => match event {
            Event::Db(DbReply::Done) => note("Success", "Cart cleaned successfully", "{}"),
            Event::Db(DbReply::Failed(message)) => failed(message),
            _ => None,
        },
        _ => None,
    }
}

/// The step that carries out a change of one product in a cart.
pub fn change_item(cart_id: u128, payload: &AddItem) -> (step: Option<Step>)
    ensures
        step_view(step) == item_change_step(cart_id, *payload),
{
    if payload.quantity == 0 {
        ask(
            Stage::RemovingItem,
            DbRequest::DeleteCartItem { cart_id, product_id: payload.product_id },
        )
    } else if payload.quantity < 0 {
        reply_with(HttpReply::text(BAD_REQUEST, "Invalid quantity".to_owned()))
    } else {
        ask(
            Stage::UpdatingItem,
            DbRequest::UpdateCartItem {
                cart_id,
                product_id: payload.product_id,
                quantity: payload.quantity,
            },
        )
    }
}

/// One step of changing or removing a product in the caller's cart.
pub fn remove_product_from_cart(
    user: &AuthenticatedUser,
    payload: &AddItem,
    stage: Stage,
    event: Event,
) -> (step: Option<Step>)
    ensures
        step_view(step) == remove_product_from_cart_step(user@, *payload, stage@, event@),
{
    match stage {
        Stage::Start => match event {
            Event::Begin => look_up_cart(parse_uuid(user.claims.sub.as_str())),
            _ => None,
        },
        Stage::FindingCart { .. } => match event {
            Event::Db(DbReply::Cart(None)) => note("Error", "No cart found", "No data"),
            Event::Db(DbReply::Cart(Some(cart))) => ask(
                Stage::FindingItem { cart_id: cart.id },
                DbRequest::FindCartItem { cart_id: cart.id, product_id: payload.product_id },
            ),
            Event::Db(DbReply::Failed(message)) => failed(message),
            _ => None,
        },
        Stage::FindingItem { cart_id } => match event {
            Event::Db(DbReply::Item(Some(_))) => change_item(cart_id, payload),
            Event::Db(DbReply::Item(None)) => note("Error", "Product not found in cart", "No data"),
            Event::Db(DbReply::Failed(message)) => failed(message),
            _ => None,
        },
        Stage::RemovingItem => match event {
            Event::Db(DbReply::Done) => note("Success", "Product removed from cart", "{}"),
            Event::Db(DbReply::Failed(message)) => failed(message),
            _ => None,
        },
        Stage::UpdatingItem => match event {
            Event::Db(DbReply::Done) => note("Success", "Product quantity updated", "{}"),
            Event::Db(DbReply::Failed(message)) => failed(message),
            _ => None,
        },
        _ => None,
    }
}

} // verus!
