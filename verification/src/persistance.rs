//! What the service decides around the durable store: the store's own
//! calls are made by the caller, which hands their results in.

pub mod access;
pub mod accounts;
