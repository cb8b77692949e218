//! The catalogue flows: list everything, fetch one product, search.

use crate::db::{DbReply, DbReplyView, DbRequest, DbRequestView};
use crate::flow::{
    ask, asking, failed, note, reply_with, replying, step_view, Event, EventView, Stage,
    StageView, Step, StepView,
};
use crate::product::models::ProductView;
use crate::routes::models::{
    json_reply, noted, statement_failed, HttpReply, Payload, PayloadView, OK,
};
use vstd::prelude::*;

verus! {

/// One step of listing the catalogue: all products in a 200, or a 500 that
/// quotes the database.
pub open spec fn get_all_products_step(stage: StageView, event: EventView) -> Option<StepView> {
    match (stage, event) {
        (StageView::Start, EventView::Begin) => asking(
            StageView::ListingProducts,
            DbRequestView::ListProducts,
        ),
        (StageView::ListingProducts, EventView::Db(DbReplyView::Products(products))) => {
            replying(json_reply(OK, "Success"@, "All products"@, PayloadView::Products(products)))
        },
        (StageView::ListingProducts, EventView::Db(DbReplyView::Failed(message))) => replying(
            statement_failed(message),
        ),
        _ => None,
    }
}

/// One step of fetching a product: the product in a 200, or, where there is
/// none or the statement failed, a 200 whose envelope says `Error`.
pub open spec fn get_product_by_id_step(id: u128, stage: StageView, event: EventView) -> Option<
    StepView,
> {
    match (stage, event) {
        (StageView::Start, EventView::Begin) => asking(
            StageView::FindingProduct,
            DbRequestView::FindProduct { id },
        ),
        (StageView::FindingProduct, EventView::Db(DbReplyView::Product(Some(product)))) => {
            replying(json_reply(OK, "Success"@, "Product Details"@, PayloadView::Product(product)))
        },
        (StageView::FindingProduct, EventView::Db(DbReplyView::Product(None))) => replying(
            noted("Error"@, "Error while fetching data for the Id"@, "No Data"@),
        ),
        (StageView::FindingProduct, EventView::Db(DbReplyView::Failed(_))) => replying(
            noted("Error"@, "Error while fetching data for the Id"@, "No Data"@),
        ),
        _ => None,
    }
}

/// Whether a character means something other than itself in a pattern: the
/// two wildcards and the escape character do.
pub open spec fn special(c: char) -> bool {
    c == '%' || c == '_' || c == '\\'
}

/// A character as it stands in a pattern for itself: behind the escape
/// character where it is special.
pub open spec fn escaped_char(c: char) -> Seq<char> {
    if special(c) {
        seq!['\\', c]
    } else {
        seq![c]
    }
}

/// A text as it stands in a pattern for itself, character by character.
pub open spec fn escaped(text: Seq<char>) -> Seq<char>
    decreases text.len(),
{
    if text.len() == 0 {
        Seq::empty()
    } else {
        escaped(text.drop_last()) + escaped_char(text.last())
    }
}

/// The pattern that a search for `term` puts to the database: the term,
/// standing for itself, with anything before it and anything after it.
pub open spec fn search_pattern(term: Seq<char>) -> Seq<char> {
    "%"@ + escaped(term) + "%"@
}

/// The reply to a search that found these products: the products in a 200,
/// or, where there are none, a 200 whose envelope says so.
pub open spec fn found_step(products: Seq<ProductView>) -> Option<StepView> {
    if products.len() == 0 {
        replying(noted("Error"@, "No products found"@, "No Data"@))
    } else {
        replying(json_reply(OK, "Success"@, "Search results"@, PayloadView::Products(products)))
    }
}

/// One step of searching the catalogue: the products that the database
/// finds like the term's pattern, or a 500 that quotes the database.
pub open spec fn search_product_step(
    term: Seq<char>,
    stage: StageView,
    event: EventView,
) -> Option<StepView> {
    match (stage, event) {
        (StageView::Start, EventView::Begin) => asking(
            StageView::SearchingProducts,
            DbRequestView::SearchProducts { pattern: search_pattern(term) },
        ),
        (StageView::SearchingProducts, EventView::Db(DbReplyView::Products(products))) => {
            found_step(products)
        },
        (StageView::SearchingProducts, EventView::Db(DbReplyView::Failed(message))) => replying(
            statement_failed(message),
        ),
        _ => None,
    }
}

/// One step of listing the catalogue.
pub fn get_all_products(stage: Stage, event: Event) -> (step: Option<Step>)
    ensures
        step_view(step) == get_all_products_step(stage@, event@),
{
    match stage {
        Stage::Start => match event {
            Event::Begin => ask(Stage::ListingProducts, DbRequest::ListProducts),
            _ => None,
        },
        Stage::ListingProducts => match event {
            Event::Db(DbReply::Products(products)) => reply_with(
                HttpReply::json(OK, "Success", "All products", Payload::Products(products)),
            ),
            Event::Db(DbReply::Failed(message)) => failed(message),
            _ => None,
        },
        _ => None,
    }
}

/// One step of fetching the product with the given identifier.
pub fn get_product_by_id(id: u128, stage: Stage, event: Event) -> (step: Option<Step>)
    ensures
        step_view(step) == get_product_by_id_step(id, stage@, event@),
{
    match stage {
        Stage::Start => match event {
            Event::Begin => ask(Stage::FindingProduct, DbRequest::FindProduct { id }),
            _ => None,
        },
        Stage::FindingProduct => match event {
            Event::Db(DbReply::Product(Some(product))) => reply_with(
                HttpReply::json(OK, "Success", "Product Details", Payload::Product(product)),
            ),
            Event::Db(DbReply::Product(None)) => note(
                "Error",
                "Error while fetching data for the Id",
                "No Data",
            ),
            Event::Db(DbReply::Failed(_)) => note(
                "Error",
                "Error while fetching data for the Id",
                "No Data",
            ),
            _ => None,
        },
        _ => None,
    }
}

/// The pattern that a search for `term` puts to the database.
pub fn pattern_for(term: &str) -> (pattern: String)
    ensures
        pattern@ == search_pattern(term@),
{
    let mut pattern = "%".to_owned();
    let n = term.unicode_len();
    let mut i: usize = 0;
    while i < n
        invariant
            i <= n,
            n == term@.len(),
            pattern@ == "%"@ + escaped(term@.take(i as int)),
        decreases n - i,
    {
        let c = term.get_char(i);
        proof {
            reveal_strlit("\\");
            let next = term@.take(i as int + 1);
            assert(next.drop_last() =~= term@.take(i as int));
        }
        if c == '%' || c == '_' || c == '\\' {
            pattern.append("\\");
        }
        pattern.append(term.substring_char(i, i + 1));
        i += 1;
    }
    assert(term@.take(n as int) =~= term@);
    pattern.append("%");
    pattern
}

/// One step of searching the catalogue for a term.
pub fn search_product(term: &str, stage: Stage, event: Event) -> (step: Option<Step>)
    ensures
        step_view(step) == search_product_step(term@, stage@, event@),
{
    match stage {
        Stage::Start => match event {
            Event::Begin => ask(
                Stage::SearchingProducts,
                DbRequest::SearchProducts { pattern: pattern_for(term) },
            ),
            _ => None,
        },
        Stage::SearchingProducts => match event {
            Event::Db(DbReply::Products(products)) => {
                if products.len() == 0 {
                    note("Error", "No products found", "No Data")
                } else {
                    reply_with(
                        HttpReply::json(
                            OK,
                            "Success",
                            "Search results",
                            Payload::Products(products),
                        ),
                    )
                }
            },
            Event::Db(DbReply::Failed(message)) => failed(message),
            _ => None,
        },
        _ => None,
    }
}

} // verus!
