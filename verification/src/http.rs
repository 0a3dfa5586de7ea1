//! Plain models of HTTP requests and responses, and the status lines the
//! service can answer with.

use vstd::prelude::*;

verus! {

/// The status of a reply that found its handler.
pub const STATUS_OK: u16 = 200;

/// The status of a reply to bytes that do not form an HTTP request.
pub const STATUS_BAD_REQUEST: u16 = 400;

/// The status of a reply to a request no route answers.
pub const STATUS_NOT_FOUND: u16 = 404;

/// The standard HTTP verbs: the only methods a route can be registered under.
#[derive(Clone, Copy, PartialEq, Eq, Structural, Debug)]
pub enum Method {
    Get,
    Head,
    Post,
    Put,
    Delete,
    Connect,
    Options,
    Trace,
    Patch,
}

/// The verb named by a request line's method token, if it is a standard one.
pub open spec fn spec_method_of(s: Seq<char>) -> Option<Method> {
    if s == "GET"@ {
        Some(Method::Get)
    } else if s == "HEAD"@ {
        Some(Method::Head)
    } else if s == "POST"@ {
        Some(Method::Post)
    } else if s == "PUT"@ {
        Some(Method::Put)
    } else if s == "DELETE"@ {
        Some(Method::Delete)
    } else if s == "CONNECT"@ {
        Some(Method::Connect)
    } else if s == "OPTIONS"@ {
        Some(Method::Options)
    } else if s == "TRACE"@ {
        Some(Method::Trace)
    } else if s == "PATCH"@ {
        Some(Method::Patch)
    } else {
        None
    }
}

/// Reads a method token; an extension method (any other token) is `None`.
pub fn method_from_text(s: &String) -> (r: Option<Method>)
    ensures
        r == spec_method_of(s@),
{
    if *s == String::from_str("GET") {
        Some(Method::Get)
    } else if *s == String::from_str("HEAD") {
        Some(Method::Head)
    } else if *s == String::from_str("POST") {
        Some(Method::Post)
    } else if *s == String::from_str("PUT") {
        Some(Method::Put)
    } else if *s == String::from_str("DELETE") {
        Some(Method::Delete)
    } else if *s == String::from_str("CONNECT") {
        Some(Method::Connect)
    } else if *s == String::from_str("OPTIONS") {
        Some(Method::Options)
    } else if *s == String::from_str("TRACE") {
        Some(Method::Trace)
    } else if *s == String::from_str("PATCH") {
        Some(Method::Patch)
    } else {
        None
    }
}

/// One request as the wire parser hands it in. The headers and body are
/// carried for the handlers' sake; the present handlers ignore them.
pub struct Request {
    pub method: Method,
    pub path: String,
    pub headers: Vec<(String, String)>,
    pub body: Vec<u8>,
}

/// One reply, before the transport serialises it. Headers that the wire
/// format itself requires (content length and the like) are the transport's
/// business, not this model's; the service sets none of its own.
pub struct Response {
    pub status: u16,
    pub headers: Vec<(String, String)>,
    pub body: String,
}

/// A bare reply carrying `status` and nothing else.
pub open spec fn is_empty_reply(r: Response, status: u16) -> bool {
    &&& r.status == status
    &&& r.headers@.len() == 0
    &&& r.body@ == Seq::<char>::empty()
}

/// The standardised reply to a request that no route answers.
pub open spec fn is_not_found(r: Response) -> bool {
    is_empty_reply(r, STATUS_NOT_FOUND)
}

/// The standardised reply to bytes that do not form an HTTP request.
pub open spec fn is_bad_request(r: Response) -> bool {
    is_empty_reply(r, STATUS_BAD_REQUEST)
}

/// Builds the 404 reply.
pub fn not_found() -> (r: Response)
    ensures
        is_not_found(r),
{
    Response { status: STATUS_NOT_FOUND, headers: Vec::new(), body: String::new() }
}

/// Builds the 400 reply.
pub fn bad_request() -> (r: Response)
    ensures
        is_bad_request(r),
{
    Response { status: STATUS_BAD_REQUEST, headers: Vec::new(), body: String::new() }
}

} // verus!
