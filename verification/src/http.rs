//! Plain data models for the HTTP boundary. The core never performs a call;
//! these types only describe one for the host's transport (see
//! [`crate::platform::Platform`]).

use crate::utils::StringsMap;
use vstd::prelude::*;

verus! {

/// The request methods the service boundary distinguishes.
#[derive(Clone, Copy, Debug, PartialEq, Eq, Structural)]
pub enum HttpMethod {
    GET,
    POST,
    PUT,
    DELETE,
}

impl HttpMethod {
    /// The method's wire name.
    pub open spec fn spec_name(&self) -> Seq<char> {
        match self {
            HttpMethod::GET => "GET"@,
            HttpMethod::POST => "POST"@,
            HttpMethod::PUT => "PUT"@,
            HttpMethod::DELETE => "DELETE"@,
        }
    }

    /// The method's wire name, for hosts that assemble a request line.
    pub fn name(&self) -> (r: &'static str)
        ensures
            r@ == self.spec_name(),
    {
        match self {
            HttpMethod::GET => "GET",
            HttpMethod::POST => "POST",
            HttpMethod::PUT => "PUT",
            HttpMethod::DELETE => "DELETE",
        }
    }
}

/// One request header.
#[derive(Debug)]
pub struct HttpHeader {
    pub name: String,
    pub value: String,
}

impl HttpHeader {
    pub fn new(name: String, value: String) -> (r: HttpHeader)
        ensures
            r.name@ == name@,
            r.value@ == value@,
    {
        HttpHeader { name, value }
    }
}

/// Everything a service call hands the transport besides the URL and the
/// method: a body, headers, and URL parameters.
#[derive(Debug)]
pub struct HttpRequest {
    pub body: String,
    pub headers: StringsMap,
    pub url_params: StringsMap,
}

impl HttpRequest {
    pub fn new(body: String, headers: StringsMap, url_params: StringsMap) -> (r: HttpRequest)
        ensures
            r.body@ == body@,
            r.headers == headers,
            r.url_params == url_params,
    {
        HttpRequest { body, headers, url_params }
    }
}

} // verus!
