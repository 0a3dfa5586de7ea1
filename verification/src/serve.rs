//! The serving loop's per-request decisions: resolve a request through the
//! route table, run the handler or synthesise the 404, and answer malformed
//! input with a 400. The loop that reads and writes sockets lives outside
//! this crate and calls in here once per request.

use vstd::prelude::*;
use crate::handler::{handler_response, invoke, spec_hello};
use crate::http::{
    Method, Request, Response, STATUS_BAD_REQUEST, STATUS_NOT_FOUND, STATUS_OK, bad_request,
    is_bad_request, is_not_found, not_found,
};
use crate::router::{
    Router, entry_matches, is_app_table, lemma_find_iff_has_route, lemma_find_names_the_match,
    routes_unique, spec_find,
};

verus! {

/// What the wire parser handed in for one inbound request.
pub enum ParseOutcome {
    /// A well-formed request naming a standard verb.
    Valid(Request),
    /// A well-formed request whose method token is an extension the route
    /// table cannot name; no route answers it.
    ExtensionMethod,
    /// Bytes that do not form an HTTP request.
    Malformed,
}

/// The reply owed to request `req` under `router`'s table: the matched
/// handler's reply, or the 404 when no route answers.
pub open spec fn response_to(router: Router, req: Request, r: Response) -> bool {
    match spec_find(router.routes(), req.method, req.path@) {
        Some(h) => handler_response(h, req, r),
        None => is_not_found(r),
    }
}

/// The reply owed for one parse outcome: dispatch for a valid request, the
/// 404 for an unroutable extension method, the 400 for malformed bytes.
pub open spec fn step_response(router: Router, outcome: ParseOutcome, r: Response) -> bool {
    match outcome {
        ParseOutcome::Valid(req) => response_to(router, req, r),
        ParseOutcome::ExtensionMethod => is_not_found(r),
        ParseOutcome::Malformed => is_bad_request(r),
    }
}

/// Resolves one well-formed request: looks its (method, path) up in the
/// table, runs the handler it names, or builds the 404 when none does.
pub fn respond(router: &Router, req: &Request) -> (r: Response)
    ensures
        response_to(*router, *req, r),
{
    match router.dispatch(req.method, &req.path) {
        Some(h) => invoke(h, req),
        None => not_found(),
    }
}

/// One step of the serving loop: exactly one reply per parse outcome, and a
/// malformed request never stops the loop — it only draws the 400.
pub fn serve_step(router: &Router, outcome: ParseOutcome) -> (r: Response)
    ensures
        step_response(*router, outcome, r),
{
    match outcome {
        ParseOutcome::Valid(req) => respond(router, &req),
        ParseOutcome::ExtensionMethod => not_found(),
        ParseOutcome::Malformed => bad_request(),
    }
}

/// Law: under the application's table, every GET "/" request is answered
/// with status 200 and exactly the greeting body.
pub proof fn lemma_get_root_ok(router: Router, req: Request, r: Response)
    requires
        is_app_table(router),
        req.method == Method::Get,
        req.path@ == "/"@,
        response_to(router, req, r),
    ensures
        r.status == STATUS_OK,
        r.body@ == spec_hello(),
{
    assert(routes_unique(router.routes()));
    assert(entry_matches(router.routes()[0], req.method, req.path@));
    lemma_find_names_the_match(router.routes(), req.method, req.path@, 0);
}

/// Law: under the application's table, a request whose path is not "/" or
/// whose method is not GET is answered with status 404.
pub proof fn lemma_unrouted_not_found(router: Router, req: Request, r: Response)
    requires
        is_app_table(router),
        !(req.method == Method::Get && req.path@ == "/"@),
        response_to(router, req, r),
    ensures
        r.status == STATUS_NOT_FOUND,
{
    assert(!entry_matches(router.routes()[0], req.method, req.path@));
    lemma_find_iff_has_route(router.routes(), req.method, req.path@);
    assert(spec_find(router.routes(), req.method, req.path@) is None);
}

/// Law: a malformed request draws the 400, and a well-formed request served
/// after it is still answered exactly per the table — bad input leaves the
/// loop available.
pub proof fn lemma_malformed_recoverable(
    router: Router,
    req: Request,
    r_bad: Response,
    r_next: Response,
)
    requires
        step_response(router, ParseOutcome::Malformed, r_bad),
        step_response(router, ParseOutcome::Valid(req), r_next),
    ensures
        r_bad.status == STATUS_BAD_REQUEST,
        response_to(router, req, r_next),
{
}

/// Law: two clients' GET "/" requests are answered independently — each
/// reply is the full 200 greeting, whatever the other request carried.
pub proof fn lemma_concurrent_roots_independent(
    router: Router,
    req1: Request,
    req2: Request,
    r1: Response,
    r2: Response,
)
    requires
        is_app_table(router),
        req1.method == Method::Get,
        req1.path@ == "/"@,
        req2.method == Method::Get,
        req2.path@ == "/"@,
        response_to(router, req1, r1),
        response_to(router, req2, r2),
    ensures
        r1.status == STATUS_OK,
        r1.body@ == spec_hello(),
        r2.status == STATUS_OK,
        r2.body@ == spec_hello(),
{
    lemma_get_root_ok(router, req1, r1);
    lemma_get_root_ok(router, req2, r2);
}

} // verus!
