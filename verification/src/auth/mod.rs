pub mod handlers;
pub mod hash;
pub mod jwt;
pub mod models;
