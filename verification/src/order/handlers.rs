//! Checkout: price the cart, have the payment processor create a hosted
//! session for it, record the order, and send the payer on.

use crate::auth::models::{AuthenticatedUser, ClaimsView};
use crate::db::{DbReply, DbReplyView, DbRequest, DbRequestView};
use crate::flow::{
    ask, asking, reply_with, replying, Action, ActionView, Event, EventView, Stage, StageView,
    Step, StepView, step_view,
};
use crate::ident::{parse_uuid, uuid_parsed};
use crate::order::models::{line_views, CheckOut, CheckoutLine, CheckoutLineView};
use crate::order::payment::{item_views, session_address, session_for, PaymentService};
use crate::routes::models::{
    json_reply, text_reply, HttpReply, Payload, PayloadView, BAD_REQUEST, INTERNAL_SERVER_ERROR,
    OK,
};
use vstd::prelude::*;

verus! {

/// The sum of the lines' amounts, in minor currency units.
pub open spec fn lines_total(lines: Seq<CheckoutLineView>) -> int
    decreases lines.len(),
{
    if lines.len() == 0 {
        0
    } else {
        lines_total(lines.drop_last()) + lines.last().amount
    }
}

/// Whether every line's amount is its unit price times its quantity.
pub open spec fn lines_exact(lines: Seq<CheckoutLineView>) -> bool {
    forall|i: int|
        0 <= i < lines.len() ==> (#[trigger] lines[i]).amount == lines[i].unit_amount
            * lines[i].quantity
}

/// The sum over the lines of unit price times quantity.
pub open spec fn lines_product_total(lines: Seq<CheckoutLineView>) -> int
    decreases lines.len(),
{
    if lines.len() == 0 {
        0
    } else {
        lines_product_total(lines.drop_last()) + lines.last().unit_amount * lines.last().quantity
    }
}

/// What the processor is to charge for: of each line its name, unit price
/// and quantity.
pub open spec fn priced_items(lines: Seq<CheckoutLineView>) -> Seq<(Seq<char>, i64, i32)> {
    Seq::new(lines.len(), |i: int| (lines[i].name, lines[i].unit_amount, lines[i].quantity))
}

/// A cart can be checked out when it holds something and its total can be
/// written in 64 bits.
pub open spec fn payable(lines: Seq<CheckoutLineView>) -> bool {
    lines.len() > 0 && i64::MIN <= lines_total(lines) <= i64::MAX
}

/// Where the processor sends the payer after the payment.
pub open spec fn success_url() -> Seq<char> {
    "http://localhost:8080/success"@
}

/// Where the processor sends the payer who gives up.
pub open spec fn cancel_url() -> Seq<char> {
    "http://localhost:8080/cancel"@
}

/// The first step of checkout, given what the caller's subject parsed to:
/// price the cart for that user, or refuse with a 400 where the subject is
/// no identifier.
pub open spec fn checkout_start_step(user_id: Result<u128, Seq<char>>, cart_id: u128) -> Option<
    StepView,
> {
    match user_id {
        Ok(id) => asking(
            StageView::ListingLines { user_id: id },
            DbRequestView::ListCheckoutLines { cart_id },
        ),
        Err(_) => replying(text_reply(BAD_REQUEST, "Invalid user ID format"@)),
    }
}

/// The step after the cart's lines were read.
pub open spec fn priced_step(
    secret_key: Seq<char>,
    user_id: u128,
    lines: Seq<CheckoutLineView>,
) -> Option<StepView> {
    if payable(lines) {
        Some(
            StepView {
                stage: StageView::CreatingSession {
                    user_id,
                    total_amount: lines_total(lines) as i64,
                },
                action: ActionView::Pay {
                    secret_key,
                    session: session_for(priced_items(lines), success_url(), cancel_url()),
                },
            },
        )
    } else {
        replying(
            json_reply(
                BAD_REQUEST,
                "Error"@,
                "Cart is empty or contains invalid items"@,
                PayloadView::Empty,
            ),
        )
    }
}

/// The step after the session was created at `checkout_url`: the order is
/// recorded for the user as pending, in `usd`, under the session's address.
pub open spec fn recording_step(
    user_id: u128,
    checkout_url: Seq<char>,
    total_amount: i64,
) -> Option<StepView> {
    asking(
        StageView::InsertingOrder { checkout_url },
        DbRequestView::InsertOrder {
            user_id,
            payment_id: checkout_url,
            status: "pending"@,
            total_amount,
            currency: "usd"@,
        },
    )
}

/// One step of checkout.
///
/// The caller's subject must parse as a user identifier; where it does not,
/// the reply is a 400 and nothing is asked of the database or the
/// processor. The cart's priced lines are then read; a failure there is a
/// 500. An empty cart, or one whose total cannot be written in 64 bits, is
/// a 400. Otherwise the processor is asked for a session with one line per
/// item, and the total is kept. A failure of the processor is a 500 that
/// quotes it. With the session created, the order is recorded for the
/// caller as pending, in `usd`, under the session's address, with the total
/// kept. Once recorded, the address is sent back with a 200; a failure to
/// record is a 500 that quotes the database.
pub open spec fn create_checkout_step(
    secret_key: Seq<char>,
    order: CheckOut,
    user: ClaimsView,
    stage: StageView,
    event: EventView,
) -> Option<StepView> {
    match (stage, event) {
        (StageView::Start, EventView::Begin) => checkout_start_step(
            uuid_parsed(user.sub),
            order.cart_id,
        ),
        (StageView::ListingLines { user_id }, EventView::Db(DbReplyView::Lines(lines))) => {
            priced_step(secret_key, user_id, lines)
        },
        (StageView::ListingLines { .. }, EventView::Db(DbReplyView::Failed(_))) => replying(
            json_reply(
                INTERNAL_SERVER_ERROR,
                "Error"@,
                "Failed to fetch cart items"@,
                PayloadView::Empty,
            ),
        ),
        (StageView::CreatingSession { user_id, total_amount }, EventView::Payment(outcome)) => {
            match session_address(outcome) {
                Ok(checkout_url) => recording_step(user_id, checkout_url, total_amount),
                Err(message) => replying(
                    text_reply(INTERNAL_SERVER_ERROR, "Stripe error: "@ + message),
                ),
            }
        },
        (StageView::InsertingOrder { checkout_url }, EventView::Db(DbReplyView::Done)) => {
            replying(
                json_reply(
                    OK,
                    "Success"@,
                    "Redirect the URL to pay"@,
                    PayloadView::CheckoutUrl(checkout_url),
                ),
            )
        },
        (StageView::InsertingOrder { .. }, EventView::Db(DbReplyView::Failed(message))) => {
            replying(text_reply(INTERNAL_SERVER_ERROR, "DB Insert error: "@ + message))
        },
        _ => None,
    }
}

proof fn lemma_total_bounds(lines: Seq<CheckoutLineView>)
    ensures
        -0x8000_0000_0000_0000 * lines.len() <= lines_total(lines) <= 0x7fff_ffff_ffff_ffff
            * lines.len(),
    decreases lines.len(),
{
    if lines.len() > 0 {
        lemma_total_bounds(lines.drop_last());
    }
}

/// The total of a cart, where it can be written in 64 bits.
pub fn cart_total(lines: &Vec<CheckoutLine>) -> (total: Option<i64>)
    ensures
        match total {
            Some(sum) => sum == lines_total(line_views(lines@)),
            None => !(i64::MIN <= lines_total(line_views(lines@)) <= i64::MAX),
        },
{
    let ghost all = line_views(lines@);
    let mut sum: i128 = 0;
    let mut i: usize = 0;
    while i < lines.len()
        invariant
            i <= lines.len(),
            all == line_views(lines@),
            sum == lines_total(all.take(i as int)),
        decreases lines.len() - i,
    {
        proof {
            let next = all.take(i as int + 1);
            assert(next.drop_last() =~= all.take(i as int));
            lemma_total_bounds(all.take(i as int));
            assert(0x7fff_ffff_ffff_ffff * i <= 0x7fff_ffff_ffff_ffff * 0xffff_ffff_ffff_ffff)
                by (nonlinear_arith)
                requires
                    0 <= i <= 0xffff_ffff_ffff_ffff,
            ;
            assert(-0x8000_0000_0000_0000 * i >= -0x8000_0000_0000_0000 * 0xffff_ffff_ffff_ffff)
                by (nonlinear_arith)
                requires
                    0 <= i <= 0xffff_ffff_ffff_ffff,
            ;
        }
        sum = sum + lines[i].amount as i128;
        i += 1;
    }
    assert(all.take(i as int) =~= all);
    if sum < i64::MIN as i128 || sum > i64::MAX as i128 {
        None
    } else {
        Some(sum as i64)
    }
}

/// Of each line what the processor is to charge for.
pub fn items_to_charge(lines: &Vec<CheckoutLine>) -> (items: Vec<(String, i64, i32)>)
    ensures
        item_views(items@) == priced_items(line_views(lines@)),
{
    let mut items: Vec<(String, i64, i32)> = Vec::new();
    let mut i: usize = 0;
    while i < lines.len()
        invariant
            i <= lines.len(),
            items@.len() == i,
            forall|j: int|
                0 <= j < i ==> (#[trigger] items@[j]).0@ == lines@[j].name@ && items@[j].1
                    == lines@[j].unit_amount && items@[j].2 == lines@[j].quantity,
        decreases lines.len() - i,
    {
        let line = &lines[i];
        items.push((line.name.clone(), line.unit_amount, line.quantity));
        i += 1;
    }
    items
}

/// The first step of checkout, given what the caller's subject parsed to.
pub fn begin_checkout(user_id: Result<u128, String>, cart_id: u128) -> (step: Option<Step>)
    ensures
        step_view(step) == checkout_start_step(
            match user_id {
                Ok(id) => Ok(id),
                Err(message) => Err(message@),
            },
            cart_id,
        ),
{
    match user_id {
        Ok(id) => ask(
            Stage::ListingLines { user_id: id },
            DbRequest::ListCheckoutLines { cart_id },
        ),
        Err(_) => reply_with(HttpReply::text(BAD_REQUEST, "Invalid user ID format".to_owned())),
    }
}

/// The step after the cart's lines were read.
pub fn price_cart(stripe_secret: &str, user_id: u128, lines: Vec<CheckoutLine>) -> (step: Option<
    Step,
>)
    ensures
        step_view(step) == priced_step(stripe_secret@, user_id, line_views(lines@)),
{
    let total = cart_total(&lines);
    if lines.len() == 0 || total.is_none() {
        return reply_with(
            HttpReply::json(
                BAD_REQUEST,
                "Error",
                "Cart is empty or contains invalid items",
                Payload::Empty,
            ),
        );
    }
    let items = items_to_charge(&lines);
    let service = PaymentService::new(stripe_secret);
    let session = service.create_checkout_session(
        items,
        "http://localhost:8080/success".to_owned(),
        "http://localhost:8080/cancel".to_owned(),
    );
    Some(
        Step {
            stage: Stage::CreatingSession { user_id, total_amount: total.unwrap() },
            action: Action::Pay { service, session },
        },
    )
}

/// The step after the session was created.
pub fn record_order(user_id: u128, checkout_url: String, total_amount: i64) -> (step: Option<
    Step,
>)
    ensures
        step_view(step) == recording_step(user_id, checkout_url@, total_amount),
{
    let payment_id = checkout_url.clone();
    ask(
        Stage::InsertingOrder { checkout_url },
        DbRequest::InsertOrder {
            user_id,
            payment_id,
            status: "pending".to_owned(),
            total_amount,
            currency: "usd".to_owned(),
        },
    )
}

/// One step of checkout of the cart that `order` names, for the caller,
/// under the account `stripe_secret` at the payment processor.
pub fn create_checkout(
    stripe_secret: &str,
    order: &CheckOut,
    user: &AuthenticatedUser,
    stage: Stage,
    event: Event,
) -> (step: Option<Step>)
    ensures
        step_view(step) == create_checkout_step(stripe_secret@, *order, user@, stage@, event@),
{
    match stage {
        Stage::Start => match event {
            Event::Begin => begin_checkout(parse_uuid(user.claims.sub.as_str()), order.cart_id),
            _ => None,
        },
        Stage::ListingLines { user_id } => match event {
            Event::Db(DbReply::Lines(lines)) => price_cart(stripe_secret, user_id, lines),
            Event::Db(DbReply::Failed(_)) => reply_with(
                HttpReply::json(
                    INTERNAL_SERVER_ERROR,
                    "Error",
                    "Failed to fetch cart items",
                    Payload::Empty,
                ),
            ),
            _ => None,
        },
        Stage::CreatingSession { user_id, total_amount } => match event {
            Event::Payment(outcome) => match PaymentService::session_url(outcome) {
                Ok(checkout_url) => record_order(user_id, checkout_url, total_amount),
                Err(message) => reply_with(
                    HttpReply::failure(INTERNAL_SERVER_ERROR, "Stripe error: ", message.as_str()),
                ),
            },
            _ => None,
        },
        Stage::InsertingOrder { checkout_url } => match event {
            Event::Db(DbReply::Done) => reply_with(
                HttpReply::json(
                    OK,
                    "Success",
                    "Redirect the URL to pay",
                    Payload::CheckoutUrl(checkout_url),
                ),
            ),
            Event::Db(DbReply::Failed(message)) => reply_with(
                HttpReply::failure(INTERNAL_SERVER_ERROR, "DB Insert error: ", message.as_str()),
            ),
            _ => None,
        },
        _ => None,
    }
}

} // verus!
