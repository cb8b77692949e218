//! How a request is served: in steps. A step is taken when something
//! happens (the request arrives, the database answers, the payment
//! processor answers) and ends by saying what to do next: put a statement
//! to the database, ask the processor for a session, or reply. Whoever
//! drives a flow performs that and comes back with the outcome.

use crate::db::{DbReply, DbReplyView, DbRequest, DbRequestView};
use crate::order::payment::{
    CheckoutSession, CheckoutSessionView, PaymentOutcome, PaymentOutcomeView, PaymentService,
};
use crate::routes::models::{
    noted, statement_failed, HttpReply, HttpReplyView, Payload, INTERNAL_SERVER_ERROR, OK,
};
use vstd::prelude::*;

verus! {

/// Where a flow stands: what it has asked for and not yet heard of.
#[derive(Debug, Clone, PartialEq, Eq)]
pub enum Stage {
    /// Nothing has been done yet.
    Start,
    FindingUser,
    InsertingUser,
    /// The caller is this user; the cart is being looked for.
    FindingCart { user_id: u128 },
    InsertingCart,
    ListingItems,
    InsertingItem,
    ClearingItems,
    /// The cart is known; the item in it is being looked for.
    FindingItem { cart_id: u128 },
    RemovingItem,
    UpdatingItem,
    /// The caller is this user; the cart is being priced.
    ListingLines { user_id: u128 },
    /// The caller's cart came to this total; the processor is creating the
    /// session.
    CreatingSession { user_id: u128, total_amount: i64 },
    /// The session exists at this address; the order is being recorded.
    InsertingOrder { checkout_url: String },
    ListingProducts,
    FindingProduct,
    SearchingProducts,
    /// The reply has been given.
    Done,
}

pub enum StageView {
    Start,
    FindingUser,
    InsertingUser,
    FindingCart { user_id: u128 },
    InsertingCart,
    ListingItems,
    InsertingItem,
    ClearingItems,
    FindingItem { cart_id: u128 },
    RemovingItem,
    UpdatingItem,
    ListingLines { user_id: u128 },
    CreatingSession { user_id: u128, total_amount: i64 },
    InsertingOrder { checkout_url: Seq<char> },
    ListingProducts,
    FindingProduct,
    SearchingProducts,
    Done,
}

impl View for Stage {
    type V = StageView;

    open spec fn view(&self) -> StageView {
        match self {
            Stage::Start => StageView::Start,
            Stage::FindingUser => StageView::FindingUser,
            Stage::InsertingUser => StageView::InsertingUser,
            Stage::FindingCart { user_id } => StageView::FindingCart { user_id: *user_id },
            Stage::InsertingCart => StageView::InsertingCart,
            Stage::ListingItems => StageView::ListingItems,
            Stage::InsertingItem => StageView::InsertingItem,
            Stage::ClearingItems => StageView::ClearingItems,
            Stage::FindingItem { cart_id } => StageView::FindingItem { cart_id: *cart_id },
            Stage::RemovingItem => StageView::RemovingItem,
            Stage::UpdatingItem => StageView::UpdatingItem,
            Stage::ListingLines { user_id } => StageView::ListingLines { user_id: *user_id },
            Stage::CreatingSession { user_id, total_amount } => StageView::CreatingSession {
                user_id: *user_id,
                total_amount: *total_amount,
            },
            Stage::InsertingOrder { checkout_url } => StageView::InsertingOrder {
                checkout_url: checkout_url@,
            },
            Stage::ListingProducts => StageView::ListingProducts,
            Stage::FindingProduct => StageView::FindingProduct,
            Stage::SearchingProducts => StageView::SearchingProducts,
            Stage::Done => StageView::Done,
        }
    }
}

/// What happened.
#[derive(Debug, Clone, PartialEq, Eq)]
pub enum Event {
    /// The request arrived.
    Begin,
    /// The database answered the statement last put to it.
    Db(DbReply),
    /// The payment processor answered.
    Payment(PaymentOutcome),
}

pub enum EventView {
    Begin,
    Db(DbReplyView),
    Payment(PaymentOutcomeView),
}

impl View for Event {
    type V = EventView;

    open spec fn view(&self) -> EventView {
        match self {
            Event::Begin => EventView::Begin,
            Event::Db(reply) => EventView::Db(reply@),
            Event::Payment(outcome) => EventView::Payment(outcome@),
        }
    }
}

/// What to do next.
#[derive(Debug, Clone, PartialEq, Eq)]
pub enum Action {
    Query(DbRequest),
    /// Create this session under this account.
    Pay { service: PaymentService, session: CheckoutSession },
    Respond(HttpReply),
}

pub enum ActionView {
    Query(DbRequestView),
    Pay { secret_key: Seq<char>, session: CheckoutSessionView },
    Respond(HttpReplyView),
}

impl View for Action {
    type V = ActionView;

    open spec fn view(&self) -> ActionView {
        match self {
            Action::Query(request) => ActionView::Query(request@),
            Action::Pay { service, session } => ActionView::Pay {
                secret_key: service@,
                session: session@,
            },
            Action::Respond(reply) => ActionView::Respond(reply@),
        }
    }
}

/// The end of a step: the stage the flow is at now, and what to do.
#[derive(Debug, Clone, PartialEq, Eq)]
pub struct Step {
    pub stage: Stage,
    pub action: Action,
}

pub struct StepView {
    pub stage: StageView,
    pub action: ActionView,
}

impl View for Step {
    type V = StepView;

    open spec fn view(&self) -> StepView {
        StepView { stage: self.stage@, action: self.action@ }
    }
}

/// The view of a step that may not have been taken.
pub open spec fn step_view(step: Option<Step>) -> Option<StepView> {
    match step {
        Some(taken) => Some(taken@),
        None => None,
    }
}

/// The step that puts a statement to the database and waits at `stage`.
pub open spec fn asking(stage: StageView, request: DbRequestView) -> Option<StepView> {
    Some(StepView { stage, action: ActionView::Query(request) })
}

/// The step that ends the flow with a reply.
pub open spec fn replying(reply: HttpReplyView) -> Option<StepView> {
    Some(StepView { stage: StageView::Done, action: ActionView::Respond(reply) })
}

pub fn ask(stage: Stage, request: DbRequest) -> (step: Option<Step>)
    ensures
        step_view(step) == asking(stage@, request@),
{
    Some(Step { stage, action: Action::Query(request) })
}

pub fn reply_with(reply: HttpReply) -> (step: Option<Step>)
    ensures
        step_view(step) == replying(reply@),
{
    Some(Step { stage: Stage::Done, action: Action::Respond(reply) })
}

/// Ends the flow on a statement that failed.
pub fn failed(message: String) -> (step: Option<Step>)
    ensures
        step_view(step) == replying(statement_failed(message@)),
{
    reply_with(HttpReply::failure(INTERNAL_SERVER_ERROR, "Error: ", message.as_str()))
}

/// Ends the flow with a 200 whose envelope carries a word or two.
pub fn note(outcome: &str, msg: &str, data: &str) -> (step: Option<Step>)
    ensures
        step_view(step) == replying(noted(outcome@, msg@, data@)),
{
    reply_with(HttpReply::json(OK, outcome, msg, Payload::Text(data.to_owned())))
}

} // verus!
