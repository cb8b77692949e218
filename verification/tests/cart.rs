use storefront::auth::models::{AuthenticatedUser, Claims};
use storefront::cart::handlers::{
    add_to_cart, change_item, clean_cart, create_cart, get_cart_items, look_up_cart,
    remove_product_from_cart,
};
use storefront::cart::models::{AddItem, Cart, CartItem};
use storefront::db::{DbReply, DbRequest};
use storefront::flow::{Action, Event, Stage, Step};
use storefront::routes::models::{ApiResponse, Body, HttpReply, Payload};

const USER: u128 = 0x550e8400_e29b_41d4_a716_446655440000;
const CART: u128 = 0x11111111_2222_3333_4444_555555555555;
const PRODUCT: u128 = 0xaaaaaaaa_bbbb_cccc_dddd_eeeeeeeeeeee;

fn caller() -> AuthenticatedUser {
    AuthenticatedUser {
        claims: Claims { sub: "550e8400-e29b-41d4-a716-446655440000".to_string(), exp: 42 },
    }
}

fn stranger() -> AuthenticatedUser {
    AuthenticatedUser { claims: Claims { sub: "alice".to_string(), exp: 42 } }
}

fn cart() -> Cart {
    Cart { id: CART, user_id: USER, created_at: 1_700_000_000_000_000 }
}

fn item(quantity: i32) -> CartItem {
    CartItem {
        id: 9,
        cart_id: CART,
        product_id: PRODUCT,
        quantity,
        added_at: 1_700_000_000_000_000,
    }
}

fn change(quantity: i32) -> AddItem {
    AddItem { cart_id: 12345, product_id: PRODUCT, quantity }
}

fn ask(stage: Stage, request: DbRequest) -> Option<Step> {
    Some(Step { stage, action: Action::Query(request) })
}

fn text(status: u16, body: &str) -> Option<Step> {
    Some(Step {
        stage: Stage::Done,
        action: Action::Respond(HttpReply { status, body: Body::Text(body.to_string()) }),
    })
}

fn note(outcome: &str, msg: &str, data: &str) -> Option<Step> {
    Some(Step {
        stage: Stage::Done,
        action: Action::Respond(HttpReply {
            status: 200,
            body: Body::Json(ApiResponse {
                status: outcome.to_string(),
                msg: msg.to_string(),
                data: Payload::Text(data.to_string()),
            }),
        }),
    })
}

fn failure() -> Event {
    Event::Db(DbReply::Failed("connection reset".to_string()))
}

#[test]
fn a_cart_flow_starts_by_looking_for_the_callers_cart() {
    let expected = ask(Stage::FindingCart { user_id: USER }, DbRequest::FindCart { user_id: USER });
    assert_eq!(create_cart(&caller(), Stage::Start, Event::Begin), expected);
    assert_eq!(get_cart_items(&caller(), Stage::Start, Event::Begin), expected);
    assert_eq!(clean_cart(&caller(), Stage::Start, Event::Begin), expected);
    assert_eq!(
        remove_product_from_cart(&caller(), &change(0), Stage::Start, Event::Begin),
        expected
    );
    assert_eq!(look_up_cart(Ok(USER)), expected);
}

#[test]
fn the_subject_may_be_written_in_any_form_of_the_identifier() {
    let expected = ask(Stage::FindingCart { user_id: USER }, DbRequest::FindCart { user_id: USER });
    for sub in [
        "550e8400e29b41d4a716446655440000",
        "550E8400-E29B-41D4-A716-446655440000",
        "urn:uuid:550e8400-e29b-41d4-a716-446655440000",
        "{550e8400-e29b-41d4-a716-446655440000}",
    ] {
        let user = AuthenticatedUser { claims: Claims { sub: sub.to_string(), exp: 42 } };
        assert_eq!(create_cart(&user, Stage::Start, Event::Begin), expected);
    }
}

#[test]
fn a_subject_that_is_no_identifier_is_a_bad_request() {
    let expected = text(400, "Invalid user ID format");
    assert_eq!(create_cart(&stranger(), Stage::Start, Event::Begin), expected);
    assert_eq!(get_cart_items(&stranger(), Stage::Start, Event::Begin), expected);
    assert_eq!(clean_cart(&stranger(), Stage::Start, Event::Begin), expected);
    assert_eq!(
        remove_product_from_cart(&stranger(), &change(0), Stage::Start, Event::Begin),
        expected
    );
    assert_eq!(look_up_cart(Err("whatever the parser said".to_string())), expected);
}

#[test]
fn creating_a_second_cart_is_a_conflict() {
    assert_eq!(
        create_cart(
            &caller(),
            Stage::FindingCart { user_id: USER },
            Event::Db(DbReply::Cart(Some(cart())))
        ),
        note("Conflict", "Cart Already Exist", "No Data")
    );
}

#[test]
fn creating_the_first_cart_inserts_it() {
    assert_eq!(
        create_cart(
            &caller(),
            Stage::FindingCart { user_id: USER },
            Event::Db(DbReply::Cart(None))
        ),
        ask(Stage::InsertingCart, DbRequest::InsertCart { user_id: USER })
    );
    assert_eq!(
        create_cart(&caller(), Stage::InsertingCart, Event::Db(DbReply::Done)),
        note("Success", "Cart Created Successfully", "{}")
    );
}

#[test]
fn creating_a_cart_quotes_the_database_when_it_fails() {
    assert_eq!(
        create_cart(&caller(), Stage::FindingCart { user_id: USER }, failure()),
        text(500, "Error: connection reset")
    );
    assert_eq!(
        create_cart(&caller(), Stage::InsertingCart, failure()),
        text(500, "Error: connection reset")
    );
}

#[test]
fn listing_without_a_cart_carries_no_items() {
    assert_eq!(
        get_cart_items(
            &caller(),
            Stage::FindingCart { user_id: USER },
            Event::Db(DbReply::Cart(None))
        ),
        note("Error", "Cart to found", "no cart")
    );
}

#[test]
fn listing_reads_the_items_of_the_callers_cart() {
    assert_eq!(
        get_cart_items(
            &caller(),
            Stage::FindingCart { user_id: USER },
            Event::Db(DbReply::Cart(Some(cart())))
        ),
        ask(Stage::ListingItems, DbRequest::ListCartItems { cart_id: CART })
    );
    let items = vec![item(2), item(3)];
    assert_eq!(
        get_cart_items(&caller(), Stage::ListingItems, Event::Db(DbReply::Items(items.clone()))),
        Some(Step {
            stage: Stage::Done,
            action: Action::Respond(HttpReply {
                status: 200,
                body: Body::Json(ApiResponse {
                    status: "Success".to_string(),
                    msg: "All crat items".to_string(),
                    data: Payload::CartItems(items),
                }),
            }),
        })
    );
}

#[test]
fn listing_quotes_the_database_when_it_fails() {
    assert_eq!(
        get_cart_items(&caller(), Stage::FindingCart { user_id: USER }, failure()),
        text(500, "Error: connection reset")
    );
    assert_eq!(
        get_cart_items(&caller(), Stage::ListingItems, failure()),
        text(500, "Error: connection reset")
    );
}

#[test]
fn adding_inserts_a_row_whatever_the_cart_holds() {
    let payload = AddItem { cart_id: CART, product_id: PRODUCT, quantity: 2 };
    assert_eq!(
        add_to_cart(&caller(), &payload, Stage::Start, Event::Begin),
        ask(
            Stage::InsertingItem,
            DbRequest::InsertCartItem { cart_id: CART, product_id: PRODUCT, quantity: 2 }
        )
    );
    assert_eq!(
        add_to_cart(&caller(), &payload, Stage::InsertingItem, Event::Db(DbReply::Done)),
        note("Success", "Item added to the cart successfully", "No data")
    );
}

#[test]
fn a_failed_add_is_still_a_200() {
    let payload = AddItem { cart_id: CART, product_id: PRODUCT, quantity: 2 };
    assert_eq!(
        add_to_cart(&caller(), &payload, Stage::InsertingItem, failure()),
        note("Error", "Error occurred", "No data")
    );
}

#[test]
fn emptying_without_a_cart_writes_nothing() {
    assert_eq!(
        clean_cart(&caller(), Stage::FindingCart { user_id: USER }, Event::Db(DbReply::Cart(None))),
        note("Error", "No cart found", "No data")
    );
}

#[test]
fn emptying_removes_all_items_of_the_callers_cart() {
    assert_eq!(
        clean_cart(
            &caller(),
            Stage::FindingCart { user_id: USER },
            Event::Db(DbReply::Cart(Some(cart())))
        ),
        ask(Stage::ClearingItems, DbRequest::DeleteCartItems { cart_id: CART })
    );
    assert_eq!(
        clean_cart(&caller(), Stage::ClearingItems, Event::Db(DbReply::Done)),
        note("Success", "Cart cleaned successfully", "{}")
    );
}

#[test]
fn emptying_quotes_the_database_when_it_fails() {
    assert_eq!(
        clean_cart(&caller(), Stage::FindingCart { user_id: USER }, failure()),
        text(500, "Error: connection reset")
    );
    assert_eq!(
        clean_cart(&caller(), Stage::ClearingItems, failure()),
        text(500, "Error: connection reset")
    );
}

#[test]
fn a_change_looks_in_the_callers_own_cart() {
    assert_eq!(
        remove_product_from_cart(
            &caller(),
            &change(0),
            Stage::FindingCart { user_id: USER },
            Event::Db(DbReply::Cart(Some(cart())))
        ),
        ask(
            Stage::FindingItem { cart_id: CART },
            DbRequest::FindCartItem { cart_id: CART, product_id: PRODUCT }
        )
    );
    assert_eq!(
        remove_product_from_cart(
            &caller(),
            &change(0),
            Stage::FindingCart { user_id: USER },
            Event::Db(DbReply::Cart(None))
        ),
        note("Error", "No cart found", "No data")
    );
}

#[test]
fn quantity_zero_removes_the_product() {
    assert_eq!(
        remove_product_from_cart(
            &caller(),
            &change(0),
            Stage::FindingItem { cart_id: CART },
            Event::Db(DbReply::Item(Some(item(2))))
        ),
        ask(Stage::RemovingItem, DbRequest::DeleteCartItem { cart_id: CART, product_id: PRODUCT })
    );
    assert_eq!(
        remove_product_from_cart(
            &caller(),
            &change(0),
            Stage::RemovingItem,
            Event::Db(DbReply::Done)
        ),
        note("Success", "Product removed from cart", "{}")
    );
    assert_eq!(
        change_item(CART, &change(0)),
        ask(Stage::RemovingItem, DbRequest::DeleteCartItem { cart_id: CART, product_id: PRODUCT })
    );
}

#[test]
fn a_quantity_above_zero_replaces_the_stored_one() {
    for quantity in [1, 5, i32::MAX] {
        let expected = ask(
            Stage::UpdatingItem,
            DbRequest::UpdateCartItem { cart_id: CART, product_id: PRODUCT, quantity },
        );
        assert_eq!(
            remove_product_from_cart(
                &caller(),
                &change(quantity),
                Stage::FindingItem { cart_id: CART },
                Event::Db(DbReply::Item(Some(item(2))))
            ),
            expected
        );
        assert_eq!(change_item(CART, &change(quantity)), expected);
    }
    assert_eq!(
        remove_product_from_cart(
            &caller(),
            &change(5),
            Stage::UpdatingItem,
            Event::Db(DbReply::Done)
        ),
        note("Success", "Product quantity updated", "{}")
    );
}

#[test]
fn a_quantity_below_zero_is_refused_and_writes_nothing() {
    for quantity in [-1, -5, i32::MIN] {
        let refused = text(400, "Invalid quantity");
        assert_eq!(
            remove_product_from_cart(
                &caller(),
                &change(quantity),
                Stage::FindingItem { cart_id: CART },
                Event::Db(DbReply::Item(Some(item(2))))
            ),
            refused
        );
        assert_eq!(change_item(CART, &change(quantity)), refused);
    }
}

#[test]
fn a_product_that_is_not_in_the_cart_is_reported_so() {
    for quantity in [0, 3] {
        assert_eq!(
            remove_product_from_cart(
                &caller(),
                &change(quantity),
                Stage::FindingItem { cart_id: CART },
                Event::Db(DbReply::Item(None))
            ),
            note("Error", "Product not found in cart", "No data")
        );
    }
}

#[test]
fn a_change_quotes_the_database_when_it_fails() {
    for stage in [
        Stage::FindingCart { user_id: USER },
        Stage::FindingItem { cart_id: CART },
        Stage::RemovingItem,
        Stage::UpdatingItem,
    ] {
        assert_eq!(
            remove_product_from_cart(&caller(), &change(0), stage, failure()),
            text(500, "Error: connection reset")
        );
    }
}

#[test]
fn cart_flows_take_no_step_on_what_they_did_not_ask_for() {
    assert_eq!(create_cart(&caller(), Stage::Start, Event::Db(DbReply::Done)), None);
    assert_eq!(create_cart(&caller(), Stage::InsertingCart, Event::Begin), None);
    assert_eq!(create_cart(&caller(), Stage::ListingItems, Event::Db(DbReply::Done)), None);
    assert_eq!(
        get_cart_items(&caller(), Stage::ListingItems, Event::Db(DbReply::Cart(None))),
        None
    );
    assert_eq!(clean_cart(&caller(), Stage::ClearingItems, Event::Db(DbReply::Cart(None))), None);
    assert_eq!(clean_cart(&caller(), Stage::Done, Event::Db(DbReply::Done)), None);
    assert_eq!(
        add_to_cart(&caller(), &change(1), Stage::InsertingItem, Event::Db(DbReply::Cart(None))),
        None
    );
    assert_eq!(
        remove_product_from_cart(
            &caller(),
            &change(0),
            Stage::FindingItem { cart_id: CART },
            Event::Db(DbReply::Done)
        ),
        None
    );
    assert_eq!(
        remove_product_from_cart(
            &caller(),
            &change(0),
            Stage::RemovingItem,
            Event::Db(DbReply::Item(None))
        ),
        None
    );
}
