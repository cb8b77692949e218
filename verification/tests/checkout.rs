use storefront::auth::models::{AuthenticatedUser, Claims};
use storefront::db::{DbReply, DbRequest};
use storefront::flow::{Action, Event, Stage, Step};
use storefront::order::handlers::{
    begin_checkout, cart_total, create_checkout, items_to_charge, price_cart, record_order,
};
use storefront::order::models::{CheckOut, CheckoutLine};
use storefront::order::payment::{
    quantity_for_line, CheckoutSession, Currency, LineItem, PaymentMethodType, PaymentOutcome,
    PaymentService, SessionMode,
};
use storefront::routes::models::{ApiResponse, Body, HttpReply, Payload};

const USER: u128 = 0x550e8400_e29b_41d4_a716_446655440000;
const CART: u128 = 0x11111111_2222_3333_4444_555555555555;
const KEY: &str = "sk_test_example";
const URL: &str = "https://pay.example/session/1";

fn caller() -> AuthenticatedUser {
    AuthenticatedUser {
        claims: Claims { sub: "550e8400-e29b-41d4-a716-446655440000".to_string(), exp: 42 },
    }
}

fn stranger() -> AuthenticatedUser {
    AuthenticatedUser { claims: Claims { sub: "alice".to_string(), exp: 42 } }
}

fn order() -> CheckOut {
    CheckOut { cart_id: CART }
}

/// A line as the reader of the rows prices it.
fn line(name: &str, price: f64, quantity: i32) -> CheckoutLine {
    CheckoutLine {
        name: name.to_string(),
        unit_amount: (price * 100.0).round() as i64,
        quantity,
        amount: (price * quantity as f64 * 100.0).round() as i64,
    }
}

fn text(status: u16, body: &str) -> Option<Step> {
    Some(Step {
        stage: Stage::Done,
        action: Action::Respond(HttpReply { status, body: Body::Text(body.to_string()) }),
    })
}

fn json(status: u16, outcome: &str, msg: &str, data: Payload) -> Option<Step> {
    Some(Step {
        stage: Stage::Done,
        action: Action::Respond(HttpReply {
            status,
            body: Body::Json(ApiResponse {
                status: outcome.to_string(),
                msg: msg.to_string(),
                data,
            }),
        }),
    })
}

fn session(line_items: Vec<LineItem>) -> CheckoutSession {
    CheckoutSession {
        success_url: "http://localhost:8080/success".to_string(),
        cancel_url: "http://localhost:8080/cancel".to_string(),
        payment_method_types: vec![PaymentMethodType::Card],
        mode: SessionMode::Payment,
        line_items,
    }
}

fn item(name: &str, unit_amount: i64, quantity: u64) -> LineItem {
    LineItem { name: name.to_string(), currency: Currency::Inr, unit_amount, quantity }
}

#[test]
fn checkout_starts_by_pricing_the_cart() {
    assert_eq!(
        create_checkout(KEY, &order(), &caller(), Stage::Start, Event::Begin),
        Some(Step {
            stage: Stage::ListingLines { user_id: USER },
            action: Action::Query(DbRequest::ListCheckoutLines { cart_id: CART }),
        })
    );
}

#[test]
fn two_and_three_items_at_ten_and_five_come_to_3500() {
    let lines = vec![line("Shirt", 10.00, 2), line("Mug", 5.00, 3)];
    assert_eq!(lines[0].amount, 2000);
    assert_eq!(lines[1].amount, 1500);
    assert_eq!(cart_total(&lines), Some(3500));
    let step = create_checkout(
        KEY,
        &order(),
        &caller(),
        Stage::ListingLines { user_id: USER },
        Event::Db(DbReply::Lines(lines)),
    );
    assert_eq!(
        step,
        Some(Step {
            stage: Stage::CreatingSession { user_id: USER, total_amount: 3500 },
            action: Action::Pay {
                service: PaymentService::new(KEY),
                session: session(vec![item("Shirt", 1000, 2), item("Mug", 500, 3)]),
            },
        })
    );
}

#[test]
fn two_items_at_9_99_come_to_1998() {
    let lines = vec![line("P", 9.99, 2)];
    assert_eq!(cart_total(&lines), Some(1998));
    assert_eq!(items_to_charge(&lines), vec![("P".to_string(), 999, 2)]);
}

#[test]
fn the_total_is_the_sum_of_the_line_amounts() {
    assert_eq!(cart_total(&vec![]), Some(0));
    let lines = vec![
        CheckoutLine { name: "a".to_string(), unit_amount: 3, quantity: 7, amount: 20 },
        CheckoutLine { name: "b".to_string(), unit_amount: 1, quantity: 1, amount: -5 },
        CheckoutLine { name: "c".to_string(), unit_amount: 0, quantity: 0, amount: 0 },
    ];
    assert_eq!(cart_total(&lines), Some(15));
}

#[test]
fn a_total_past_64_bits_is_no_total() {
    let big = |amount: i64| CheckoutLine {
        name: "big".to_string(),
        unit_amount: amount,
        quantity: 1,
        amount,
    };
    assert_eq!(cart_total(&vec![big(i64::MAX)]), Some(i64::MAX));
    assert_eq!(cart_total(&vec![big(i64::MIN)]), Some(i64::MIN));
    assert_eq!(cart_total(&vec![big(i64::MAX), big(1)]), None);
    assert_eq!(cart_total(&vec![big(i64::MIN), big(-1)]), None);
    assert_eq!(cart_total(&vec![big(i64::MAX), big(i64::MAX), big(i64::MIN)]), Some(i64::MAX - 1));
    assert_eq!(
        price_cart(KEY, USER, vec![big(i64::MAX), big(1)]),
        json(400, "Error", "Cart is empty or contains invalid items", Payload::Empty)
    );
}

#[test]
fn an_empty_cart_is_a_bad_request() {
    let expected = json(400, "Error", "Cart is empty or contains invalid items", Payload::Empty);
    assert_eq!(
        create_checkout(
            KEY,
            &order(),
            &caller(),
            Stage::ListingLines { user_id: USER },
            Event::Db(DbReply::Lines(vec![]))
        ),
        expected
    );
    assert_eq!(price_cart(KEY, USER, vec![]), expected);
}

#[test]
fn a_cart_that_cannot_be_read_is_an_internal_error() {
    assert_eq!(
        create_checkout(
            KEY,
            &order(),
            &caller(),
            Stage::ListingLines { user_id: USER },
            Event::Db(DbReply::Failed("connection reset".to_string()))
        ),
        json(500, "Error", "Failed to fetch cart items", Payload::Empty)
    );
}

#[test]
fn a_refusal_of_the_processor_is_quoted() {
    assert_eq!(
        create_checkout(
            KEY,
            &order(),
            &caller(),
            Stage::CreatingSession { user_id: USER, total_amount: 1998 },
            Event::Payment(PaymentOutcome::Failed("card network down".to_string()))
        ),
        text(500, "Stripe error: card network down")
    );
}

#[test]
fn a_created_session_is_recorded_as_a_pending_order() {
    let created = Event::Payment(PaymentOutcome::Created { url: Some(URL.to_string()) });
    let expected = Some(Step {
        stage: Stage::InsertingOrder { checkout_url: URL.to_string() },
        action: Action::Query(DbRequest::InsertOrder {
            user_id: USER,
            payment_id: URL.to_string(),
            status: "pending".to_string(),
            total_amount: 1998,
            currency: "usd".to_string(),
        }),
    });
    assert_eq!(
        create_checkout(
            KEY,
            &order(),
            &caller(),
            Stage::CreatingSession { user_id: USER, total_amount: 1998 },
            created
        ),
        expected
    );
    assert_eq!(record_order(USER, URL.to_string(), 1998), expected);
}

#[test]
fn a_session_without_an_address_is_recorded_under_no_url() {
    let created = Event::Payment(PaymentOutcome::Created { url: None });
    assert_eq!(
        create_checkout(
            KEY,
            &order(),
            &caller(),
            Stage::CreatingSession { user_id: USER, total_amount: 5 },
            created
        ),
        Some(Step {
            stage: Stage::InsertingOrder { checkout_url: "no url".to_string() },
            action: Action::Query(DbRequest::InsertOrder {
                user_id: USER,
                payment_id: "no url".to_string(),
                status: "pending".to_string(),
                total_amount: 5,
                currency: "usd".to_string(),
            }),
        })
    );
}

#[test]
fn a_subject_that_is_no_identifier_is_refused_before_anything_is_asked() {
    let refused = text(400, "Invalid user ID format");
    assert_eq!(create_checkout(KEY, &order(), &stranger(), Stage::Start, Event::Begin), refused);
    assert_eq!(begin_checkout(Err("whatever the parser said".to_string()), CART), refused);
    assert_eq!(
        begin_checkout(Ok(USER), CART),
        Some(Step {
            stage: Stage::ListingLines { user_id: USER },
            action: Action::Query(DbRequest::ListCheckoutLines { cart_id: CART }),
        })
    );
}

#[test]
fn the_order_is_for_the_user_that_the_flow_began_with() {
    let created = Event::Payment(PaymentOutcome::Created { url: Some(URL.to_string()) });
    let step = create_checkout(
        KEY,
        &order(),
        &stranger(),
        Stage::CreatingSession { user_id: 77, total_amount: 1998 },
        created,
    );
    assert_eq!(step, record_order(77, URL.to_string(), 1998));
}

#[test]
fn a_recorded_order_sends_the_payer_on() {
    assert_eq!(
        create_checkout(
            KEY,
            &order(),
            &caller(),
            Stage::InsertingOrder { checkout_url: URL.to_string() },
            Event::Db(DbReply::Done)
        ),
        json(200, "Success", "Redirect the URL to pay", Payload::CheckoutUrl(URL.to_string()))
    );
}

#[test]
fn an_order_that_cannot_be_recorded_is_quoted() {
    assert_eq!(
        create_checkout(
            KEY,
            &order(),
            &caller(),
            Stage::InsertingOrder { checkout_url: URL.to_string() },
            Event::Db(DbReply::Failed("disk full".to_string()))
        ),
        text(500, "DB Insert error: disk full")
    );
}

#[test]
fn checkout_takes_no_step_on_what_it_did_not_ask_for() {
    assert_eq!(
        create_checkout(KEY, &order(), &caller(), Stage::Start, Event::Db(DbReply::Done)),
        None
    );
    assert_eq!(
        create_checkout(
            KEY,
            &order(),
            &caller(),
            Stage::ListingLines { user_id: USER },
            Event::Begin
        ),
        None
    );
    assert_eq!(
        create_checkout(
            KEY,
            &order(),
            &caller(),
            Stage::ListingLines { user_id: USER },
            Event::Db(DbReply::Done)
        ),
        None
    );
    assert_eq!(
        create_checkout(
            KEY,
            &order(),
            &caller(),
            Stage::CreatingSession { user_id: USER, total_amount: 1 },
            Event::Db(DbReply::Done)
        ),
        None
    );
    assert_eq!(
        create_checkout(
            KEY,
            &order(),
            &caller(),
            Stage::InsertingOrder { checkout_url: URL.to_string() },
            Event::Payment(PaymentOutcome::Created { url: None })
        ),
        None
    );
    assert_eq!(create_checkout(KEY, &order(), &caller(), Stage::Done, Event::Begin), None);
}

#[test]
fn the_session_has_one_line_per_item_in_order() {
    let service = PaymentService::new(KEY);
    assert_eq!(service.secret_key(), KEY);
    let made = service.create_checkout_session(
        vec![("Shirt".to_string(), 1000, 2), ("Mug".to_string(), 500, 3)],
        "https://shop.example/ok".to_string(),
        "https://shop.example/no".to_string(),
    );
    assert_eq!(
        made,
        CheckoutSession {
            success_url: "https://shop.example/ok".to_string(),
            cancel_url: "https://shop.example/no".to_string(),
            payment_method_types: vec![PaymentMethodType::Card],
            mode: SessionMode::Payment,
            line_items: vec![item("Shirt", 1000, 2), item("Mug", 500, 3)],
        }
    );
    let none = service.create_checkout_session(vec![], "a".to_string(), "b".to_string());
    assert_eq!(none.line_items, vec![]);
}

#[test]
fn a_count_is_read_as_64_unsigned_bits() {
    assert_eq!(quantity_for_line(0), 0);
    assert_eq!(quantity_for_line(2), 2);
    assert_eq!(quantity_for_line(i32::MAX), 2_147_483_647);
    assert_eq!(quantity_for_line(-1), u64::MAX);
    assert_eq!(quantity_for_line(-2), u64::MAX - 1);
    assert_eq!(quantity_for_line(i32::MIN), 18_446_744_071_562_067_968);
    for quantity in [0, 1, -1, 77, -77, i32::MAX, i32::MIN] {
        assert_eq!(quantity_for_line(quantity), quantity as u64);
    }
}

#[test]
fn the_processors_answer_is_an_address_or_an_error() {
    assert_eq!(
        PaymentService::session_url(PaymentOutcome::Created { url: Some(URL.to_string()) }),
        Ok(URL.to_string())
    );
    assert_eq!(
        PaymentService::session_url(PaymentOutcome::Created { url: None }),
        Ok("no url".to_string())
    );
    assert_eq!(
        PaymentService::session_url(PaymentOutcome::Failed("declined".to_string())),
        Err("declined".to_string())
    );
}
