//! The API description. Its OpenAPI document is generated from the
//! handlers' annotations where the routes are served.

use vstd::prelude::*;

verus! {

/// The service's API description.
#[derive(Debug, Clone, Copy, PartialEq, Eq)]
pub struct ApiDoc;

} // verus!
