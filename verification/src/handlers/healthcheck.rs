//! The health check.

use vstd::prelude::*;
use crate::models::BasicResponse;

verus! {

/// The text that a healthy service answers with.
pub open spec fn health_message() -> Seq<char> {
    "Build Simple CRUD API with Rust"@
}

/// The body of the health check's answer.
pub fn health_checker_handler() -> (response: BasicResponse)
    ensures
        response.data@ == health_message(),
{
    BasicResponse { data: "Build Simple CRUD API with Rust".to_owned() }
}

} // verus!
