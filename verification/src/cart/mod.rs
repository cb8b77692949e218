pub mod handlers;
pub mod models;
