//! What a request is answered with: a status line and a body, plain text or
//! a JSON envelope.

use crate::auth::models::{LogInResponse, LogInResponseView};
use crate::cart::models::CartItem;
use crate::product::models::{product_views, Product, ProductView};
use vstd::prelude::*;

verus! {

pub const OK: u16 = 200;

pub const BAD_REQUEST: u16 = 400;

pub const UNAUTHORIZED: u16 = 401;

pub const NOT_FOUND: u16 = 404;

pub const CONFLICT: u16 = 409;

pub const INTERNAL_SERVER_ERROR: u16 = 500;

/// The JSON envelope of a reply: an outcome word, a message for people and
/// the data.
#[derive(Debug, Clone, PartialEq, Eq)]
pub struct ApiResponse<T> {
    pub status: String,
    pub msg: String,
    pub data: T,
}

pub struct ApiResponseView<V> {
    pub status: Seq<char>,
    pub msg: Seq<char>,
    pub data: V,
}

impl<T: View> View for ApiResponse<T> {
    type V = ApiResponseView<T::V>;

    open spec fn view(&self) -> ApiResponseView<T::V> {
        ApiResponseView { status: self.status@, msg: self.msg@, data: self.data@ }
    }
}

/// The data of an envelope, one variant for each shape that is ever sent.
#[derive(Debug, Clone, PartialEq, Eq)]
pub enum Payload {
    /// A JSON string.
    Text(String),
    /// The empty JSON object.
    Empty,
    LogIn(LogInResponse),
    Products(Vec<Product>),
    Product(Product),
    CartItems(Vec<CartItem>),
    /// An object whose one member, `checkout_url`, is where the payer goes.
    CheckoutUrl(String),
}

pub enum PayloadView {
    Text(Seq<char>),
    Empty,
    LogIn(LogInResponseView),
    Products(Seq<ProductView>),
    Product(ProductView),
    CartItems(Seq<CartItem>),
    CheckoutUrl(Seq<char>),
}

impl View for Payload {
    type V = PayloadView;

    open spec fn view(&self) -> PayloadView {
        match self {
            Payload::Text(text) => PayloadView::Text(text@),
            Payload::Empty => PayloadView::Empty,
            Payload::LogIn(granted) => PayloadView::LogIn(granted@),
            Payload::Products(products) => PayloadView::Products(product_views(products@)),
            Payload::Product(product) => PayloadView::Product(product@),
            Payload::CartItems(items) => PayloadView::CartItems(items@),
            Payload::CheckoutUrl(url) => PayloadView::CheckoutUrl(url@),
        }
    }
}

#[derive(Debug, Clone, PartialEq, Eq)]
pub enum Body {
    Text(String),
    Json(ApiResponse<Payload>),
}

pub enum BodyView {
    Text(Seq<char>),
    Json(ApiResponseView<PayloadView>),
}

impl View for Body {
    type V = BodyView;

    open spec fn view(&self) -> BodyView {
        match self {
            Body::Text(text) => BodyView::Text(text@),
            Body::Json(envelope) => BodyView::Json(envelope@),
        }
    }
}

/// The answer to one request.
#[derive(Debug, Clone, PartialEq, Eq)]
pub struct HttpReply {
    pub status: u16,
    pub body: Body,
}

pub struct HttpReplyView {
    pub status: u16,
    pub body: BodyView,
}

impl View for HttpReply {
    type V = HttpReplyView;

    open spec fn view(&self) -> HttpReplyView {
        HttpReplyView { status: self.status, body: self.body@ }
    }
}

/// The reply with the given status and a plain-text body.
pub open spec fn text_reply(status: u16, body: Seq<char>) -> HttpReplyView {
    HttpReplyView { status, body: BodyView::Text(body) }
}

/// The reply with the given status and a JSON envelope.
pub open spec fn json_reply(
    status: u16,
    outcome: Seq<char>,
    msg: Seq<char>,
    data: PayloadView,
) -> HttpReplyView {
    HttpReplyView { status, body: BodyView::Json(ApiResponseView { status: outcome, msg, data }) }
}

/// The reply to a statement that failed: a 500 that quotes the database.
pub open spec fn statement_failed(message: Seq<char>) -> HttpReplyView {
    text_reply(INTERNAL_SERVER_ERROR, "Error: "@ + message)
}

/// A 200 whose envelope carries a word or two as its data.
pub open spec fn noted(outcome: Seq<char>, msg: Seq<char>, data: Seq<char>) -> HttpReplyView {
    json_reply(OK, outcome, msg, PayloadView::Text(data))
}

impl HttpReply {
    pub fn text(status: u16, body: String) -> (reply: HttpReply)
        ensures
            reply@ == text_reply(status, body@),
    {
        HttpReply { status, body: Body::Text(body) }
    }

    pub fn json(status: u16, outcome: &str, msg: &str, data: Payload) -> (reply: HttpReply)
        ensures
            reply@ == json_reply(status, outcome@, msg@, data@),
    {
        HttpReply {
            status,
            body: Body::Json(
                ApiResponse { status: outcome.to_owned(), msg: msg.to_owned(), data },
            ),
        }
    }

    /// A plain-text reply whose body is a fixed lead followed by a detail,
    /// the way failures of the outside are reported.
    pub fn failure(status: u16, lead: &str, detail: &str) -> (reply: HttpReply)
        ensures
            reply@ == text_reply(status, lead@ + detail@),
    {
        HttpReply::text(status, lead.to_owned().concat(detail))
    }
}

} // verus!
