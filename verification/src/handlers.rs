//! Service-wide handlers: the greeting and the health check.

use vstd::prelude::*;

use crate::response::ApiResponse;

verus! {

/// The greeting's payload.
#[derive(Debug, Clone, PartialEq, Eq)]
pub struct Hello {
    pub message: String,
}

/// `GET /`: the greeting `Hello, World!` in the success envelope.
pub fn hello() -> (r: ApiResponse<Hello>)
    ensures
        r.code == 0,
        r.message@ == "ok"@,
        r.data.message@ == "Hello, World!"@,
{
    ApiResponse::ok(Hello { message: String::from_str("Hello, World!") })
}

/// `GET /health`: `ok`.
pub fn health() -> (r: &'static str)
    ensures
        r@ == "ok"@,
{
    "ok"
}

} // verus!
