//! A small payment processor: accounts that hold quadbucks, the transfers
//! between them, and the answers of the services that expose them.
//!
//! The accounts table lives in `models`; `bank` opens accounts and moves
//! quadbucks; `routes` and `admin` are what the REST services and the
//! administration tool do with them; `errors`, `handlers` and `log` belong to
//! the payment service; `laws` states what holds across the operations.

pub mod admin;
pub mod api_errors;
pub mod bank;
pub mod errors;
pub mod handlers;
pub mod json;
pub mod laws;
pub mod log;
pub mod models;
pub mod routes;
pub mod status;
