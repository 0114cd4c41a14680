//! Plain data models for the service boundary: what a registered service is,
//! what a request to one carries, and what comes back. Executing a service
//! is the host's job; the core only stores and routes these descriptions.

use crate::http::{HttpMethod, HttpRequest};
use crate::utils::StringMap;
use vstd::prelude::*;

verus! {

/// A registered capability: a URL, the method to reach it with, and the
/// default request shape.
#[derive(Debug)]
pub enum Service {
    Http(String, HttpMethod, HttpRequest),
}

/// One invocation of a service: the operation name and the request to send.
#[derive(Debug)]
pub enum ServiceRequest {
    Http(String, HttpRequest),
}

/// What a service execution reports back: payload data, response metadata,
/// and a status code — or a message with whatever metadata arrived.
#[derive(Debug)]
pub enum Response {
    Success(StringMap, StringMap, u32),
    Error(String, StringMap, u32),
}

} // verus!
