//! The hosted checkout session that is asked of the payment processor, and
//! what is made of the processor's answer.

use vstd::prelude::*;

verus! {

#[derive(Debug, Clone, Copy, PartialEq, Eq, Structural)]
pub enum Currency {
    Inr,
    Usd,
}

#[derive(Debug, Clone, Copy, PartialEq, Eq, Structural)]
pub enum PaymentMethodType {
    Card,
}

#[derive(Debug, Clone, Copy, PartialEq, Eq, Structural)]
pub enum SessionMode {
    Payment,
    Setup,
    Subscription,
}

/// One line of a session: a product named on the spot, the price of one
/// unit in minor currency units, and how many.
#[derive(Debug, Clone, PartialEq, Eq)]
pub struct LineItem {
    pub name: String,
    pub currency: Currency,
    pub unit_amount: i64,
    pub quantity: u64,
}

pub struct LineItemView {
    pub name: Seq<char>,
    pub currency: Currency,
    pub unit_amount: i64,
    pub quantity: u64,
}

impl View for LineItem {
    type V = LineItemView;

    open spec fn view(&self) -> LineItemView {
        LineItemView {
            name: self.name@,
            currency: self.currency,
            unit_amount: self.unit_amount,
            quantity: self.quantity,
        }
    }
}

/// The session to create.
#[derive(Debug, Clone, PartialEq, Eq)]
pub struct CheckoutSession {
    pub success_url: String,
    pub cancel_url: String,
    pub payment_method_types: Vec<PaymentMethodType>,
    pub mode: SessionMode,
    pub line_items: Vec<LineItem>,
}

pub struct CheckoutSessionView {
    pub success_url: Seq<char>,
    pub cancel_url: Seq<char>,
    pub payment_method_types: Seq<PaymentMethodType>,
    pub mode: SessionMode,
    pub line_items: Seq<LineItemView>,
}

impl View for CheckoutSession {
    type V = CheckoutSessionView;

    open spec fn view(&self) -> CheckoutSessionView {
        CheckoutSessionView {
            success_url: self.success_url@,
            cancel_url: self.cancel_url@,
            payment_method_types: self.payment_method_types@,
            mode: self.mode,
            line_items: Seq::new(self.line_items@.len(), |i: int| self.line_items@[i]@),
        }
    }
}

/// What came back from the processor: the session it created, with the
/// address it gave for the payer if it gave one, or the text of its error.
#[derive(Debug, Clone, PartialEq, Eq)]
pub enum PaymentOutcome {
    Created { url: Option<String> },
    Failed(String),
}

pub enum PaymentOutcomeView {
    Created { url: Option<Seq<char>> },
    Failed(Seq<char>),
}

impl View for PaymentOutcome {
    type V = PaymentOutcomeView;

    open spec fn view(&self) -> PaymentOutcomeView {
        match self {
            PaymentOutcome::Created { url } => PaymentOutcomeView::Created {
                url: match url {
                    Some(text) => Some(text@),
                    None => None,
                },
            },
            PaymentOutcome::Failed(message) => PaymentOutcomeView::Failed(message@),
        }
    }
}

/// The quantity of a line as the processor takes it: the 64-bit unsigned
/// reading of the stored 32-bit count. A count below zero reads as the
/// large number that the same bits, sign-extended, denote.
pub open spec fn line_quantity(quantity: i32) -> u64 {
    if quantity >= 0 {
        quantity as u64
    } else {
        (quantity + 0x1_0000_0000_0000_0000) as u64
    }
}

/// The line for one priced item of a cart: name, unit price, count.
pub open spec fn line_item_of(item: (Seq<char>, i64, i32)) -> LineItemView {
    LineItemView {
        name: item.0,
        currency: Currency::Inr,
        unit_amount: item.1,
        quantity: line_quantity(item.2),
    }
}

/// The session for the given items: one line each, in order, paid by card
/// in one payment.
pub open spec fn session_for(
    items: Seq<(Seq<char>, i64, i32)>,
    success_url: Seq<char>,
    cancel_url: Seq<char>,
) -> CheckoutSessionView {
    CheckoutSessionView {
        success_url,
        cancel_url,
        payment_method_types: seq![PaymentMethodType::Card],
        mode: SessionMode::Payment,
        line_items: Seq::new(items.len(), |i: int| line_item_of(items[i])),
    }
}

/// The views of priced items, in order.
pub open spec fn item_views(items: Seq<(String, i64, i32)>) -> Seq<(Seq<char>, i64, i32)> {
    Seq::new(items.len(), |i: int| (items[i].0@, items[i].1, items[i].2))
}

/// What the caller is told of a session: its address, the words `no url`
/// where the processor gave none, or the processor's error.
pub open spec fn session_address(outcome: PaymentOutcomeView) -> Result<Seq<char>, Seq<char>> {
    match outcome {
        PaymentOutcomeView::Created { url: Some(url) } => Ok(url),
        PaymentOutcomeView::Created { url: None } => Ok("no url"@),
        PaymentOutcomeView::Failed(message) => Err(message),
    }
}

/// The account at the payment processor that sessions are created under.
#[derive(Debug, Clone, PartialEq, Eq)]
pub struct PaymentService {
    secret_key: String,
}

impl View for PaymentService {
    type V = Seq<char>;

    closed spec fn view(&self) -> Seq<char> {
        self.secret_key@
    }
}

pub fn quantity_for_line(quantity: i32) -> (count: u64)
    ensures
        count == line_quantity(quantity),
{
    if quantity >= 0 {
        quantity as u64
    } else {
        let below: u64 = (-(quantity as i64) - 1) as u64;
        u64::MAX - below
    }
}

impl PaymentService {
    pub fn new(secret_key: &str) -> (service: PaymentService)
        ensures
            service@ == secret_key@,
    {
        PaymentService { secret_key: secret_key.to_owned() }
    }

    pub fn secret_key(&self) -> (key: &str)
        ensures
            key@ == self@,
    {
        self.secret_key.as_str()
    }

    /// The session to ask the processor for. Sending it is the caller's part.
    pub fn create_checkout_session(
        &self,
        items: Vec<(String, i64, i32)>,
        success_url: String,
        cancel_url: String,
    ) -> (session: CheckoutSession)
        ensures
            session@ == session_for(item_views(items@), success_url@, cancel_url@),
    {
        let mut line_items: Vec<LineItem> = Vec::new();
        let mut i: usize = 0;
        while i < items.len()
            invariant
                i <= items.len(),
                line_items@.len() == i,
                forall|j: int|
                    0 <= j < i ==> (#[trigger] line_items@[j])@ == line_item_of(
                        item_views(items@)[j],
                    ),
            decreases items.len() - i,
        {
            let item = &items[i];
            line_items.push(
                LineItem {
                    name: item.0.clone(),
                    currency: Currency::Inr,
                    unit_amount: item.1,
                    quantity: quantity_for_line(item.2),
                },
            );
            i += 1;
        }
        let mut payment_method_types: Vec<PaymentMethodType> = Vec::new();
        payment_method_types.push(PaymentMethodType::Card);
        let session = CheckoutSession {
            success_url,
            cancel_url,
            payment_method_types,
            mode: SessionMode::Payment,
            line_items,
        };
        assert(session@.line_items =~= session_for(
            item_views(items@),
            success_url@,
            cancel_url@,
        ).line_items);
        session
    }

    /// Reads the processor's answer.
    pub fn session_url(outcome: PaymentOutcome) -> (address: Result<String, String>)
        ensures
            match address {
                Ok(url) => session_address(outcome@) == Ok::<Seq<char>, Seq<char>>(url@),
                Err(message) => session_address(outcome@) == Err::<Seq<char>, Seq<char>>(
                    message@,
                ),
            },
    {
        match outcome {
            PaymentOutcome::Created { url: Some(url) } => Ok(url),
            PaymentOutcome::Created { url: None } => Ok("no url".to_owned()),
            PaymentOutcome::Failed(message) => Err(message),
        }
    }
}

} // verus!
