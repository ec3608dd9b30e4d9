//! Account management behind guarded routes: an in-memory account store,
//! a token-bucket rate limiter and a bearer-token check, with the errors
//! and plain data they exchange.

pub mod accounts;
pub mod errors;
pub mod handlers;
pub mod hasher;
pub mod jwt_check;
pub mod models;
pub mod persistance;
pub mod rate_limit;
