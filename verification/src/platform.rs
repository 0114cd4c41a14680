//! The host transport boundary. The core never performs a call through this
//! trait; hosts implement it and the glue around the library drives it.

use crate::http::{HttpMethod, HttpRequest};
use crate::service::Response;

use vstd::prelude::*;

verus! {

/// A capability object the host supplies for executing service calls.
/// Nothing is promised of the outcome: transport results depend on the
/// outside world, so callers must handle every [`Response`].
pub trait Platform {
    /// Performs one transport call and reports what came back.
    fn http_call(
        &mut self,
        service_url: String,
        method: HttpMethod,
        request: HttpRequest,
    ) -> Response;
}

} // verus!
