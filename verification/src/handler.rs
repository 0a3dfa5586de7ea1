//! The handlers: pure functions from a request to a response. There is one,
//! `Root`, which ignores its request and answers with a fixed greeting.

use vstd::prelude::*;
use crate::http::{Request, Response, STATUS_OK};

verus! {

/// A reference to one registered handler.
#[derive(Clone, Copy, PartialEq, Eq, Structural, Debug)]
pub enum Handler {
    /// Answers 200 with the fixed greeting, whatever the request says.
    Root,
}

/// The exact body of the root handler's reply.
pub open spec fn spec_hello() -> Seq<char> {
    "Hello, World!"@
}

/// The reply owed by handler `h` to request `req`: for `Root`, a 200 whose
/// body is exactly the greeting, with no headers of the handler's own.
pub open spec fn handler_response(h: Handler, req: Request, r: Response) -> bool {
    match h {
        Handler::Root => {
            &&& r.status == STATUS_OK
            &&& r.headers@.len() == 0
            &&& r.body@ == spec_hello()
        },
    }
}

/// Runs a handler on a request. Handlers are deterministic and side-effect
/// free: the reply depends on `h` and `req` alone.
pub fn invoke(h: Handler, req: &Request) -> (r: Response)
    ensures
        handler_response(h, *req, r),
{
    match h {
        Handler::Root => Response {
            status: STATUS_OK,
            headers: Vec::new(),
            body: String::from_str("Hello, World!"),
        },
    }
}

} // verus!
