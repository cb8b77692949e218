//! What the flows guarantee over a faithful database: the statements that
//! relate one request to the next.

use crate::auth::handlers::{denied, granted, log_in_step, sign_up_step};
use crate::auth::hash::{password_hash_of, password_matches};
use crate::auth::jwt::{
    carries, current_claims, decoded_claims, issued_token, jwt_claims, TokenError,
};
use crate::auth::models::{ClaimsView, SignUpView};
use crate::cart::handlers::{
    add_to_cart_step, clean_cart_step, create_cart_step, get_cart_items_step,
    remove_product_from_cart_step,
};
use crate::cart::models::{AddItem, Cart, CartItem};
use crate::flow::{EventView, StageView, StepView};
use crate::ident::{hyphenated, uuid_parsed};
use crate::order::handlers::{
    create_checkout_step, lines_exact, lines_product_total, lines_total, payable,
};
use crate::order::models::{CheckOut, CheckoutLineView, OrderView};
use crate::order::payment::session_address;
use crate::product::handlers::{
    get_all_products_step, get_product_by_id_step, search_product_step,
};
use crate::routes::models::{
    json_reply, noted, text_reply, PayloadView, BAD_REQUEST, CONFLICT, INTERNAL_SERVER_ERROR,
    NOT_FOUND, OK,
};
use crate::store::{
    in_cart, is_item_of, other_item, outside_cart, run, serve, Outcome, Outside, Tables,
};
use vstd::prelude::*;

verus! {

/// Sign-up of `payload`, hashing under `salt`, as a flow.
pub open spec fn sign_up_flow(payload: SignUpView, salt: Seq<char>) -> spec_fn(
    StageView,
    EventView,
) -> Option<StepView> {
    |stage: StageView, event: EventView| sign_up_step(payload, salt, stage, event)
}

/// Log-in of `payload` at the instant `now`, under a signing secret that
/// may be missing, as a flow.
pub open spec fn log_in_flow(payload: SignUpView, secret: Option<Seq<char>>, now: nat) -> spec_fn(
    StageView,
    EventView,
) -> Option<StepView> {
    |stage: StageView, event: EventView| log_in_step(payload, secret, now, stage, event)
}

/// The listing of the cart of `user`, as a flow.
pub open spec fn list_flow(user: ClaimsView) -> spec_fn(StageView, EventView) -> Option<
    StepView,
> {
    |stage: StageView, event: EventView| get_cart_items_step(user, stage, event)
}

/// The listing of the catalogue, as a flow.
pub open spec fn catalogue_flow() -> spec_fn(StageView, EventView) -> Option<StepView> {
    |stage: StageView, event: EventView| get_all_products_step(stage, event)
}

/// The fetching of the product `id`, as a flow.
pub open spec fn product_flow(id: u128) -> spec_fn(StageView, EventView) -> Option<StepView> {
    |stage: StageView, event: EventView| get_product_by_id_step(id, stage, event)
}

/// The search for `term`, as a flow.
pub open spec fn search_flow(term: Seq<char>) -> spec_fn(StageView, EventView) -> Option<
    StepView,
> {
    |stage: StageView, event: EventView| search_product_step(term, stage, event)
}

/// Cart creation for `user`, as a flow.
pub open spec fn create_cart_flow(user: ClaimsView) -> spec_fn(StageView, EventView) -> Option<
    StepView,
> {
    |stage: StageView, event: EventView| create_cart_step(user, stage, event)
}

/// The change that `user` asks for with `payload`, as a flow.
pub open spec fn change_flow(user: ClaimsView, payload: AddItem) -> spec_fn(
    StageView,
    EventView,
) -> Option<StepView> {
    |stage: StageView, event: EventView| remove_product_from_cart_step(user, payload, stage, event)
}

/// The addition of `payload` to a cart, as a flow.
pub open spec fn add_flow(payload: AddItem) -> spec_fn(StageView, EventView) -> Option<StepView> {
    |stage: StageView, event: EventView| add_to_cart_step(payload, stage, event)
}

/// The emptying of the cart of `user`, as a flow.
pub open spec fn clean_flow(user: ClaimsView) -> spec_fn(StageView, EventView) -> Option<
    StepView,
> {
    |stage: StageView, event: EventView| clean_cart_step(user, stage, event)
}

/// The checkout that `user` asks for with `order`, under the account
/// `secret_key` at the payment processor, as a flow.
pub open spec fn checkout_flow(secret_key: Seq<char>, order: CheckOut, user: ClaimsView) -> spec_fn(
    StageView,
    EventView,
) -> Option<StepView> {
    |stage: StageView, event: EventView|
        create_checkout_step(secret_key, order, user, stage, event)
}

/// Every item on record has a quantity above zero.
pub open spec fn quantities_positive(tables: Tables) -> bool {
    forall|i: int| 0 <= i < tables.items.len() ==> (#[trigger] tables.items[i]).quantity > 0
}

/// The caller's cart: the cart of the user that the caller's subject
/// names, if it names one and that user has a cart.
pub open spec fn cart_of(tables: Tables, user: ClaimsView) -> Option<Cart> {
    match uuid_parsed(user.sub) {
        Ok(id) => tables.find_cart(id),
        Err(_) => None,
    }
}

/// Every request is answered. Whatever the tables hold and whatever comes
/// from outside, each flow comes to a reply within five steps.
pub proof fn lemma_every_request_is_answered(
    tables: Tables,
    outside: Outside,
    credentials: SignUpView,
    salt: Seq<char>,
    secret: Option<Seq<char>>,
    now: nat,
    user: ClaimsView,
    item: AddItem,
    order: CheckOut,
    secret_key: Seq<char>,
    id: u128,
    term: Seq<char>,
)
    ensures
        serve(sign_up_flow(credentials, salt), tables, outside).reply is Some,
        serve(log_in_flow(credentials, secret, now), tables, outside).reply is Some,
        serve(catalogue_flow(), tables, outside).reply is Some,
        serve(product_flow(id), tables, outside).reply is Some,
        serve(search_flow(term), tables, outside).reply is Some,
        serve(create_cart_flow(user), tables, outside).reply is Some,
        serve(list_flow(user), tables, outside).reply is Some,
        serve(add_flow(item), tables, outside).reply is Some,
        serve(clean_flow(user), tables, outside).reply is Some,
        serve(change_flow(user, item), tables, outside).reply is Some,
        serve(checkout_flow(secret_key, order, user), tables, outside).reply is Some,
{
    reveal_with_fuel(run, 5);
}

/// Reading writes nothing. Log-in, the listing of a cart and the three
/// catalogue flows leave the tables as they are.
pub proof fn lemma_reading_writes_nothing(
    tables: Tables,
    outside: Outside,
    credentials: SignUpView,
    secret: Option<Seq<char>>,
    now: nat,
    user: ClaimsView,
    id: u128,
    term: Seq<char>,
)
    ensures
        serve(log_in_flow(credentials, secret, now), tables, outside).tables == tables,
        serve(catalogue_flow(), tables, outside).tables == tables,
        serve(product_flow(id), tables, outside).tables == tables,
        serve(search_flow(term), tables, outside).tables == tables,
        serve(list_flow(user), tables, outside).tables == tables,
{
    reveal_with_fuel(run, 5);
}

/// A listing shows the caller's cart. Where the caller has a cart, the
/// listing answers with exactly the items on record for that cart, in
/// order; where the caller has none, it answers so in a 200 without items.
pub proof fn lemma_listing_shows_the_callers_cart(
    tables: Tables,
    user: ClaimsView,
    outside: Outside,
)
    ensures
        ({
            let end = serve(list_flow(user), tables, outside);
            match (uuid_parsed(user.sub), cart_of(tables, user)) {
                (Err(_), _) => end.reply == Some(
                    text_reply(BAD_REQUEST, "Invalid user ID format"@),
                ),
                (Ok(_), None) => end.reply == Some(noted("Error"@, "Cart to found"@, "no cart"@)),
                (Ok(_), Some(cart)) => end.reply == Some(
                    json_reply(
                        OK,
                        "Success"@,
                        "All crat items"@,
                        PayloadView::CartItems(tables.items.filter(in_cart(cart.id))),
                    ),
                ),
            }
        }),
{
    reveal_with_fuel(run, 5);
}

/// A name can be signed up under once. While the name is free and the
/// password can be hashed, sign-up answers 200; while the name is taken it
/// answers 409 and leaves the tables as they are. So after a sign-up that
/// answered 200, the next one under the same name, whatever its salt,
/// answers 409 and writes nothing.
pub proof fn lemma_sign_up_once(
    tables: Tables,
    payload: SignUpView,
    salt: Seq<char>,
    outside: Outside,
    next_salt: Seq<char>,
    next_outside: Outside,
)
    ensures
        ({
            let created = Some(text_reply(OK, "User Created Successfully"@));
            let conflict = Some(text_reply(CONFLICT, "User already exist with the name."@));
            let first = serve(sign_up_flow(payload, salt), tables, outside);
            let second = serve(sign_up_flow(payload, next_salt), first.tables, next_outside);
            &&& tables.find_user(payload.username) is None && password_hash_of(
                salt,
                payload.password,
            ) is Some ==> first.reply == created
            &&& tables.find_user(payload.username) is Some ==> first.reply == conflict
                && first.tables == tables
            &&& first.reply == created ==> second.reply == conflict && second.tables
                == first.tables
        }),
{
    reveal_with_fuel(run, 4);
    let first = serve(sign_up_flow(payload, salt), tables, outside);
    if first.reply == Some(text_reply(OK, "User Created Successfully"@)) {
        assert(first.tables.users[tables.users.len() as int].username == payload.username);
    }
}

/// The token of a log-in names the user. Log-in under a name that is not
/// on record answers 404. Under a name that is, it answers 401 where the
/// password does not match the stored hash; where it matches, the reply
/// carries the token issued at `now` whose subject is the identifier of
/// the user on record, in hyphenated form.
pub proof fn lemma_log_in_names_the_user(
    tables: Tables,
    payload: SignUpView,
    secret: Option<Seq<char>>,
    now: nat,
    outside: Outside,
)
    ensures
        ({
            let end = serve(log_in_flow(payload, secret, now), tables, outside);
            match tables.find_user(payload.username) {
                None => end.reply == Some(text_reply(NOT_FOUND, "User does not exist."@)),
                Some(user) => if password_matches(payload.password, user.password) {
                    end.reply == Some(granted(issued_token(hyphenated(user.id), secret, now)))
                } else {
                    end.reply == Some(denied())
                },
            }
        }),
{
    reveal_with_fuel(run, 3);
}

/// What is accepted is what was issued. Of a token that carries a subject
/// and an expiry under a secret, a check at the instant `now` can accept
/// nothing but these claims, and it can accept nothing once the expiry lies
/// before `now`.
pub proof fn lemma_accepted_claims_are_the_issued_ones(
    token: Seq<char>,
    secret: Seq<char>,
    sub: Seq<char>,
    exp: nat,
    now: nat,
)
    ensures
        carries(token, secret, sub, exp) ==> current_claims(
            decoded_claims(Some(jwt_claims(token, secret))),
            now,
        ) == (if now <= exp <= usize::MAX {
            Ok::<ClaimsView, TokenError>(ClaimsView { sub, exp })
        } else {
            Err::<ClaimsView, TokenError>(TokenError::Invalid)
        }),
{
}

/// Who signed up can log in. After a sign-up that answered 200 and stored a
/// hash that the password matches, as every hash does that sign-up stores,
/// log-in under the same name and password is granted: it answers with the
/// token issued for the identifier that the new user was given.
pub proof fn lemma_sign_up_then_log_in(
    tables: Tables,
    payload: SignUpView,
    salt: Seq<char>,
    outside: Outside,
    secret: Option<Seq<char>>,
    now: nat,
    next_outside: Outside,
)
    ensures
        ({
            let first = serve(sign_up_flow(payload, salt), tables, outside);
            let second = serve(log_in_flow(payload, secret, now), first.tables, next_outside);
            match password_hash_of(salt, payload.password) {
                Some(stored) => first.reply == Some(
                    text_reply(OK, "User Created Successfully"@),
                ) && password_matches(payload.password, stored) ==> second.reply == Some(
                    granted(issued_token(hyphenated(outside.id), secret, now)),
                ),
                None => first.reply != Some(text_reply(OK, "User Created Successfully"@)),
            }
        }),
{
    reveal_with_fuel(run, 4);
    let first = serve(sign_up_flow(payload, salt), tables, outside);
    if first.reply == Some(text_reply(OK, "User Created Successfully"@)) {
        let last = tables.users.len() as int;
        assert(first.tables.users[last].username == payload.username);
    }
}

/// A user gets one cart. Creating a cart for a user who has none answers
/// `Success`; for a user who has one it answers `Conflict` and leaves the
/// tables as they are. Tables in which no user owns two carts stay so.
pub proof fn lemma_one_cart_per_user(
    tables: Tables,
    user: ClaimsView,
    outside: Outside,
    next_outside: Outside,
)
    ensures
        ({
            let created = Some(noted("Success"@, "Cart Created Successfully"@, "{}"@));
            let conflict = Some(noted("Conflict"@, "Cart Already Exist"@, "No Data"@));
            let first = serve(create_cart_flow(user), tables, outside);
            let second = serve(create_cart_flow(user), first.tables, next_outside);
            &&& uuid_parsed(user.sub) is Ok ==> (first.reply == created <==> cart_of(
                tables,
                user,
            ) is None)
            &&& first.reply == conflict <==> cart_of(tables, user) is Some
            &&& first.reply == conflict ==> first.tables == tables
            &&& first.reply == created ==> second.reply == conflict && second.tables
                == first.tables
            &&& tables.one_cart_each() ==> first.tables.one_cart_each()
        }),
{
    reveal_with_fuel(run, 4);
    reveal_strlit("Success");
    reveal_strlit("Conflict");
    assert("Success"@.len() == 7 && "Conflict"@.len() == 8);
    let first = serve(create_cart_flow(user), tables, outside);
    match uuid_parsed(user.sub) {
        Ok(id) => {
            if tables.find_cart(id) is None {
                assert(first.tables.carts[tables.carts.len() as int].user_id == id);
            }
        },
        Err(_) => {},
    }
}

/// Removing means gone. A change with quantity zero to a product that is in
/// the caller's cart answers that the product was removed; after a change
/// that answered so, the cart holds no item for the product, and any further
/// change to that product answers that it is not in the cart and writes
/// nothing.
pub proof fn lemma_removed_product_is_gone(
    tables: Tables,
    user: ClaimsView,
    payload: AddItem,
    outside: Outside,
    next_payload: AddItem,
    next_outside: Outside,
)
    requires
        payload.quantity == 0,
        next_payload.product_id == payload.product_id,
    ensures
        ({
            let removed = Some(noted("Success"@, "Product removed from cart"@, "{}"@));
            let absent = Some(noted("Error"@, "Product not found in cart"@, "No data"@));
            let first = serve(change_flow(user, payload), tables, outside);
            let second = serve(change_flow(user, next_payload), first.tables, next_outside);
            &&& first.reply == removed <==> cart_of(tables, user) is Some && tables.find_item(
                cart_of(tables, user)->0.id,
                payload.product_id,
            ) is Some
            &&& first.reply == removed ==> cart_of(first.tables, user) == cart_of(tables, user)
                && first.tables.find_item(
                cart_of(tables, user)->0.id,
                payload.product_id,
            ) is None
            &&& first.reply == removed ==> second.reply == absent && second.tables
                == first.tables
        }),
{
    reveal_with_fuel(run, 5);
    reveal_strlit("Success");
    reveal_strlit("Error");
    assert("Success"@.len() == 7 && "Error"@.len() == 5);
    let first = serve(change_flow(user, payload), tables, outside);
    if first.reply == Some(noted("Success"@, "Product removed from cart"@, "{}"@)) {
        let cart = cart_of(tables, user)->0;
        let gone = other_item(cart.id, payload.product_id);
        assert forall|i: int| 0 <= i < first.tables.items.len() implies !is_item_of(
            #[trigger] first.tables.items[i],
            cart.id,
            payload.product_id,
        ) by {
            tables.items.lemma_filter_pred(gone, i);
        }
    }
}

/// A change replaces, it does not add up. After a change with a quantity
/// above zero that answered that the quantity was updated, every item
/// of the caller's cart for that product holds exactly that quantity, and
/// the cart holds as many rows as before.
pub proof fn lemma_change_replaces_quantity(
    tables: Tables,
    user: ClaimsView,
    payload: AddItem,
    outside: Outside,
)
    requires
        payload.quantity > 0,
    ensures
        ({
            let updated = Some(noted("Success"@, "Product quantity updated"@, "{}"@));
            let first = serve(change_flow(user, payload), tables, outside);
            &&& first.reply == updated <==> cart_of(tables, user) is Some && tables.find_item(
                cart_of(tables, user)->0.id,
                payload.product_id,
            ) is Some
            &&& first.reply == updated ==> first.tables.items.len() == tables.items.len()
                && forall|i: int|
                0 <= i < first.tables.items.len() && is_item_of(
                    #[trigger] first.tables.items[i],
                    cart_of(tables, user)->0.id,
                    payload.product_id,
                ) ==> first.tables.items[i].quantity == payload.quantity
        }),
{
    reveal_with_fuel(run, 5);
    reveal_strlit("Success");
    reveal_strlit("Error");
    assert("Success"@.len() == 7 && "Error"@.len() == 5);
}

/// A quantity below zero changes nothing. A change that asks for a
/// quantity below zero leaves the tables as they are, whatever it answers.
pub proof fn lemma_negative_change_writes_nothing(
    tables: Tables,
    user: ClaimsView,
    payload: AddItem,
    outside: Outside,
)
    requires
        payload.quantity < 0,
    ensures
        serve(change_flow(user, payload), tables, outside).tables == tables,
{
    reveal_with_fuel(run, 5);
}

/// Adding adds a row. Whatever the cart holds already, an addition answers
/// `Success` and leaves one more item on record: the one asked for, last.
pub proof fn lemma_add_appends_a_row(tables: Tables, payload: AddItem, outside: Outside)
    ensures
        serve(add_flow(payload), tables, outside) == (Outcome {
            tables: Tables {
                items: tables.items.push(
                    CartItem {
                        id: outside.id,
                        cart_id: payload.cart_id,
                        product_id: payload.product_id,
                        quantity: payload.quantity,
                        added_at: outside.now,
                    },
                ),
                ..tables
            },
            reply: Some(noted("Success"@, "Item added to the cart successfully"@, "No data"@)),
        }),
{
    reveal_with_fuel(run, 3);
}

/// Emptying empties one cart. Emptying answers that the cart was cleaned
/// exactly where the caller has a cart; no item of that cart is then left
/// on record and the items of other carts stay as they are, in order. Where
/// it answers otherwise, nothing is written.
pub proof fn lemma_cleaned_cart_is_empty(tables: Tables, user: ClaimsView, outside: Outside)
    ensures
        ({
            let cleaned = Some(noted("Success"@, "Cart cleaned successfully"@, "{}"@));
            let end = serve(clean_flow(user), tables, outside);
            &&& end.reply == cleaned <==> cart_of(tables, user) is Some
            &&& end.reply == cleaned ==> end.tables == (Tables {
                items: tables.items.filter(outside_cart(cart_of(tables, user)->0.id)),
                ..tables
            }) && forall|i: int|
                0 <= i < end.tables.items.len() ==> (#[trigger] end.tables.items[i]).cart_id
                    != cart_of(tables, user)->0.id
            &&& end.reply != cleaned ==> end.tables == tables
        }),
{
    reveal_with_fuel(run, 4);
    reveal_strlit("Success");
    reveal_strlit("Error");
    assert("Success"@.len() == 7 && "Error"@.len() == 5);
    let end = serve(clean_flow(user), tables, outside);
    if cart_of(tables, user) is Some {
        let rest = outside_cart(cart_of(tables, user)->0.id);
        assert forall|i: int| 0 <= i < end.tables.items.len() implies (
        #[trigger] end.tables.items[i]).cart_id != cart_of(tables, user)->0.id by {
            tables.items.lemma_filter_pred(rest, i);
        }
    }
}

/// Quantities stay above zero. Where every item on record has a quantity
/// above zero, it is still so after any change, after an addition that
/// asks for a quantity above zero, and after an emptying.
pub proof fn lemma_quantities_stay_positive(
    tables: Tables,
    user: ClaimsView,
    payload: AddItem,
    outside: Outside,
)
    requires
        quantities_positive(tables),
    ensures
        quantities_positive(serve(change_flow(user, payload), tables, outside).tables),
        payload.quantity > 0 ==> quantities_positive(
            serve(add_flow(payload), tables, outside).tables,
        ),
        quantities_positive(serve(clean_flow(user), tables, outside).tables),
{
    reveal_with_fuel(run, 5);
    let changed = serve(change_flow(user, payload), tables, outside).tables;
    if changed != tables {
        let cart_id = cart_of(tables, user)->0.id;
        if payload.quantity == 0 {
            let rest = other_item(cart_id, payload.product_id);
            assert forall|i: int| 0 <= i < changed.items.len() implies (
            #[trigger] changed.items[i]).quantity > 0 by {
                kept_rows_are_rows(tables.items, rest, i);
            }
        }
    }
    let cleaned = serve(clean_flow(user), tables, outside).tables;
    if cleaned != tables {
        let rest = outside_cart(cart_of(tables, user)->0.id);
        assert forall|i: int| 0 <= i < cleaned.items.len() implies (
        #[trigger] cleaned.items[i]).quantity > 0 by {
            kept_rows_are_rows(tables.items, rest, i);
        }
    }
}

/// A row that a filter keeps is one of the rows filtered.
proof fn kept_rows_are_rows(rows: Seq<CartItem>, keep: spec_fn(CartItem) -> bool, i: int)
    requires
        0 <= i < rows.filter(keep).len(),
    ensures
        exists|j: int| 0 <= j < rows.len() && #[trigger] rows[j] == rows.filter(keep)[i],
{
    let kept = rows.filter(keep)[i];
    rows.lemma_filter_contains_rev(keep, kept);
}

/// An order is what was priced and paid for. Checkout for a caller whose
/// subject is no identifier is refused with a 400; so is checkout of a cart
/// that is empty or whose total cannot be written in 64 bits. Otherwise,
/// where the processor fails, the reply is a 500 that quotes it. In all
/// these cases nothing is written. Otherwise the reply is a 200 with the
/// session's address, and exactly one order was added: for the caller,
/// pending, in `usd`, under the session's address, its total the sum of the
/// lines' amounts.
pub proof fn lemma_checkout_records_the_total(
    tables: Tables,
    secret_key: Seq<char>,
    order: CheckOut,
    user: ClaimsView,
    outside: Outside,
)
    ensures
        ({
            let end = serve(checkout_flow(secret_key, order, user), tables, outside);
            match uuid_parsed(user.sub) {
                Err(_) => end.tables == tables && end.reply == Some(
                    text_reply(BAD_REQUEST, "Invalid user ID format"@),
                ),
                Ok(user_id) => if !payable(outside.lines) {
                    end.tables == tables && end.reply == Some(
                        json_reply(
                            BAD_REQUEST,
                            "Error"@,
                            "Cart is empty or contains invalid items"@,
                            PayloadView::Empty,
                        ),
                    )
                } else {
                    match session_address(outside.payment) {
                        Err(message) => end.tables == tables && end.reply == Some(
                            text_reply(INTERNAL_SERVER_ERROR, "Stripe error: "@ + message),
                        ),
                        Ok(checkout_url) => end.tables == (Tables {
                            orders: tables.orders.push(
                                OrderView {
                                    id: outside.id,
                                    user_id,
                                    payment_id: checkout_url,
                                    status: "pending"@,
                                    total_amount: lines_total(outside.lines) as i64,
                                    currency: "usd"@,
                                    created_at: outside.now,
                                },
                            ),
                            ..tables
                        }) && end.reply == Some(
                            json_reply(
                                OK,
                                "Success"@,
                                "Redirect the URL to pay"@,
                                PayloadView::CheckoutUrl(checkout_url),
                            ),
                        ),
                    }
                },
            }
        }),
{
    reveal_with_fuel(run, 5);
}

/// Where every line's amount is its unit price times its quantity, the
/// cart's total is the sum of unit price times quantity.
pub proof fn lemma_exact_lines_total(lines: Seq<CheckoutLineView>)
    requires
        lines_exact(lines),
    ensures
        lines_total(lines) == lines_product_total(lines),
    decreases lines.len(),
{
    if lines.len() > 0 {
        lemma_exact_lines_total(lines.drop_last());
    }
}

} // verus!
