//! What each route decides, apart from talking to the client and to the
//! durable store.

pub mod accounts;
pub mod healthcheck;
pub mod login;
