//! The route table: an immutable set of (method, path) entries built once at
//! startup, looked up by exact match for every request.

use vstd::prelude::*;
use crate::handler::Handler;
use crate::http::Method;

verus! {

/// One registered route: an exact method and path, and the handler that
/// answers requests equal to them.
pub struct RouteEntry {
    pub method: Method,
    pub path: String,
    pub handler: Handler,
}

/// The key a route is registered under: its method and its exact path.
pub open spec fn route_key(e: RouteEntry) -> (Method, Seq<char>) {
    (e.method, e.path@)
}

/// Whether entry `e` answers a request for method `m` and path `p`.
pub open spec fn entry_matches(e: RouteEntry, m: Method, p: Seq<char>) -> bool {
    e.method == m && e.path@ == p
}

/// Whether some entry of `entries` answers (m, p).
pub open spec fn has_route(entries: Seq<RouteEntry>, m: Method, p: Seq<char>) -> bool {
    exists|i: int| 0 <= i < entries.len() && entry_matches(#[trigger] entries[i], m, p)
}

/// No two entries of `entries` share a (method, path) key.
pub open spec fn routes_unique(entries: Seq<RouteEntry>) -> bool {
    forall|i: int, j: int|
        0 <= i < j < entries.len() ==> route_key(#[trigger] entries[i]) != route_key(
            #[trigger] entries[j],
        )
}

/// The handler of the first entry of `entries` that answers (m, p), if any.
pub open spec fn spec_find(entries: Seq<RouteEntry>, m: Method, p: Seq<char>) -> Option<Handler>
    decreases entries.len(),
{
    if entries.len() == 0 {
        None
    } else if entry_matches(entries[0], m, p) {
        Some(entries[0].handler)
    } else {
        spec_find(entries.skip(1), m, p)
    }
}

/// Law: lookup finds a handler exactly when some entry answers (m, p) — a
/// missed lookup is a routing miss, never a lost route.
pub proof fn lemma_find_iff_has_route(entries: Seq<RouteEntry>, m: Method, p: Seq<char>)
    ensures
        spec_find(entries, m, p) is Some <==> has_route(entries, m, p),
    decreases entries.len(),
{
    if entries.len() == 0 {
    } else if entry_matches(entries[0], m, p) {
        assert(has_route(entries, m, p));
    } else {
        lemma_find_iff_has_route(entries.skip(1), m, p);
        if has_route(entries, m, p) {
            let i = choose|i: int| 0 <= i < entries.len() && entry_matches(entries[i], m, p);
            assert(entries.skip(1)[i - 1] == entries[i]);
            assert(has_route(entries.skip(1), m, p));
        }
        if has_route(entries.skip(1), m, p) {
            let j = choose|j: int|
                0 <= j < entries.skip(1).len() && entry_matches(entries.skip(1)[j], m, p);
            assert(entries[j + 1] == entries.skip(1)[j]);
            assert(has_route(entries, m, p));
        }
    }
}

/// Law: under a table whose keys are unique, lookup of (m, p) yields
/// precisely the handler of the one entry registered for it.
pub proof fn lemma_find_names_the_match(
    entries: Seq<RouteEntry>,
    m: Method,
    p: Seq<char>,
    i: int,
)
    requires
        routes_unique(entries),
        0 <= i < entries.len(),
        entry_matches(entries[i], m, p),
    ensures
        spec_find(entries, m, p) == Some(entries[i].handler),
    decreases entries.len(),
{
    if i > 0 {
        assert(route_key(entries[0]) != route_key(entries[i]));
        assert(routes_unique(entries.skip(1))) by {
            assert forall|a: int, b: int|
                0 <= a < b < entries.skip(1).len() implies route_key(entries.skip(1)[a])
                != route_key(entries.skip(1)[b]) by {
                assert(entries.skip(1)[a] == entries[a + 1]);
                assert(entries.skip(1)[b] == entries[b + 1]);
            }
        }
        assert(entries.skip(1)[i - 1] == entries[i]);
        lemma_find_names_the_match(entries.skip(1), m, p, i - 1);
    }
}

/// The immutable mapping from (method, path) to handler. Built once before
/// the listener accepts anything, and only read thereafter.
pub struct Router {
    entries: Vec<RouteEntry>,
}

impl Router {
    /// The registered routes, in registration order.
    pub closed spec fn routes(&self) -> Seq<RouteEntry> {
        self.entries@
    }

    /// The table's invariant: no two routes share a (method, path) key.
    pub open spec fn wf(&self) -> bool {
        routes_unique(self.routes())
    }

    /// An empty table.
    pub fn new() -> (r: Router)
        ensures
            r.wf(),
            r.routes() == Seq::<RouteEntry>::empty(),
    {
        Router { entries: Vec::new() }
    }

    /// Registers one more route. Registering a (method, path) twice would
    /// break the table's invariant, so a duplicate is refused outright.
    pub fn route(self, method: Method, path: String, handler: Handler) -> (r: Router)
        requires
            self.wf(),
            !has_route(self.routes(), method, path@),
        ensures
            r.wf(),
            r.routes() == self.routes().push((RouteEntry { method, path, handler })),
    {
        let mut entries = self.entries;
        proof {
            assert forall|i: int| 0 <= i < entries@.len() implies route_key(entries@[i])
                != (method, path@) by {
                assert(!entry_matches(entries@[i], method, path@));
            }
        }
        entries.push(RouteEntry { method, path, handler });
        Router { entries }
    }

    /// Exact-match lookup: the handler of the first route equal to
    /// (method, path), or `None` when no route answers it.
    pub fn dispatch(&self, method: Method, path: &String) -> (r: Option<Handler>)
        ensures
            r == spec_find(self.routes(), method, path@),
    {
        let n = self.entries.len();
        let mut i: usize = 0;
        proof {
            assert(self.routes().skip(0) =~= self.routes());
        }
        while i < n
            invariant
                i <= n,
                n == self.routes().len(),
                spec_find(self.routes(), method, path@) == spec_find(
                    self.routes().skip(i as int),
                    method,
                    path@,
                ),
            decreases n - i,
        {
            let e = &self.entries[i];
            if e.method == method && e.path == *path {
                assert(self.routes().skip(i as int)[0] == self.routes()[i as int]);
                return Some(e.handler);
            }
            proof {
                assert(self.routes().skip(i as int)[0] == self.routes()[i as int]);
                assert(self.routes().skip(i as int).skip(1) =~= self.routes().skip(i as int + 1));
            }
            i = i + 1;
        }
        None
    }

    /// The application's route table: GET "/" answered by the root handler,
    /// and nothing else.
    pub fn build() -> (r: Router)
        ensures
            r.wf(),
            is_app_table(r),
    {
        Router::new().route(Method::Get, String::from_str("/"), Handler::Root)
    }
}

/// The shape of the application's table: exactly one route, sending
/// GET "/" to `Root`.
pub open spec fn is_app_table(router: Router) -> bool {
    &&& router.routes().len() == 1
    &&& entry_matches(router.routes()[0], Method::Get, "/"@)
    &&& router.routes()[0].handler == Handler::Root
}

} // verus!
