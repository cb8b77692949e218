//! The rules of a small storefront: accounts and bearer tokens, the product
//! catalogue, shopping carts and checkout.
//!
//! Nothing here touches a socket or a database. Each request is a flow that
//! moves from stage to stage: given the stage it is at and what just came
//! back from the outside, it says which stage comes next and what to do
//! there. Every step is stated over the mathematical views of the values
//! involved and proved against that statement.

pub mod auth;
pub mod cart;
pub mod db;
pub mod flow;
pub mod ident;
pub mod laws;
pub mod order;
pub mod product;
pub mod routes;
pub mod store;
