//! A minimal HTTP "hello world" application, modeled as a verified library.
//!
//! The library defines the one route handler (`index`), a routing table
//! (`App`) holding the single registered route, and a dispatcher that maps
//! an incoming method and path to a response, exactly as the served
//! application behaves: `GET /` answers `200` with the greeting, everything
//! else answers `404`.

use vstd::prelude::*;

verus! {

/// The greeting served at the root path.
pub open spec fn hello_text() -> Seq<char> {
    "Hello, world from Rocket!"@
}

/// The route handler for `GET /`: a pure function that always returns the
/// same constant greeting.
pub fn index() -> (r: &'static str)
    ensures
        r@ == hello_text(),
{
    "Hello, world from Rocket!"
}

/// The root path, the only path with a registered route.
pub open spec fn root_path() -> Seq<char> {
    "/"@
}

/// An HTTP request method, as far as the routing table distinguishes them.
#[derive(Clone, Copy, Debug, PartialEq, Eq, Structural)]
pub enum Method {
    Get,
    Post,
    Put,
    Delete,
    Head,
    Patch,
    Options,
}

/// One entry of the routing table: a method paired with the path it serves.
pub struct Route {
    pub method: Method,
    pub path: String,
}

/// Whether a route entry serves a request with the given method and path.
pub open spec fn route_matches(r: Route, m: Method, p: Seq<char>) -> bool {
    r.method == m && r.path@ == p
}

/// The application: a routing table built once at startup and immutable
/// afterwards.
pub struct App {
    pub routes: Vec<Route>,
}

impl App {
    /// The routing table as a sequence of entries, in registration order.
    pub open spec fn view(&self) -> Seq<Route> {
        self.routes@
    }

    /// The application invariant: the table holds exactly one entry, which
    /// maps `GET /` to the handler.
    pub open spec fn wf(&self) -> bool {
        &&& self@.len() == 1
        &&& self@[0].method == Method::Get
        &&& self@[0].path@ == root_path()
    }

    /// A fresh application with an empty routing table.
    pub fn build() -> (app: App)
        ensures
            app@ =~= Seq::<Route>::empty(),
    {
        App { routes: Vec::new() }
    }

    /// Registers one route, appending it to the table.
    pub fn mount(&mut self, route: Route)
        ensures
            final(self)@ =~= old(self)@.push(route),
    {
        self.routes.push(route);
    }
}

/// Builds the application: registers the single `GET /` route and hands the
/// configured table back, ready to serve.
pub fn rocket() -> (app: App)
    ensures
        app.wf(),
{
    let mut app = App::build();
    app.mount(Route { method: Method::Get, path: String::from_str("/") });
    app
}

/// An HTTP response: a status code and a textual body.
pub struct Response {
    pub status: u16,
    pub body: String,
}

/// The status the application answers with: `200` when a `GET /` route is
/// registered for the request, `404` otherwise.
pub open spec fn spec_status(m: Method, p: Seq<char>) -> u16 {
    if m == Method::Get && p == root_path() {
        200u16
    } else {
        404u16
    }
}

/// The body the application answers with: the greeting on `GET /`, empty
/// otherwise.
pub open spec fn spec_body(m: Method, p: Seq<char>) -> Seq<char> {
    if m == Method::Get && p == root_path() {
        hello_text()
    } else {
        Seq::<char>::empty()
    }
}

impl App {
    /// Finds the first route entry serving the given method and path, as the
    /// server's router does when a request arrives.
    pub fn find_route(&self, m: Method, path: &String) -> (r: Option<usize>)
        ensures
            match r {
                Some(i) => {
                    &&& 0 <= i < self@.len()
                    &&& route_matches(self@[i as int], m, path@)
                    &&& forall|j: int| 0 <= j < i ==> !route_matches(self@[j], m, path@)
                },
                None => forall|j: int| 0 <= j < self@.len() ==> !route_matches(self@[j], m, path@),
            },
    {
        let n = self.routes.len();
        let mut i: usize = 0;
        while i < n
            invariant
                n == self@.len(),
                0 <= i <= n,
                forall|j: int| 0 <= j < i ==> !route_matches(self@[j], m, path@),
            decreases n - i,
        {
            if self.routes[i].method == m && self.routes[i].path == *path {
                return Some(i);
            }
            i = i + 1;
        }
        None
    }
}

/// Serves one request against the application's routing table: a request
/// matching the registered `GET /` route is answered by the handler with
/// status `200`; any other method or path falls through to the `404`
/// not-found answer.
pub fn dispatch(app: &App, m: Method, path: &String) -> (r: Response)
    requires
        app.wf(),
    ensures
        r.status == spec_status(m, path@),
        r.body@ == spec_body(m, path@),
        m == Method::Get && path@ == root_path() ==> r.status == 200 && r.body@ == hello_text(),
        !(m == Method::Get && path@ == root_path()) ==> r.status != 200,
{
    match app.find_route(m, path) {
        Some(_) => Response { status: 200, body: String::from_str(index()) },
        None => Response { status: 404, body: String::new() },
    }
}

/// Dispatching is deterministic and idempotent: any two responses produced
/// for the same method and path — at any time and under any concurrency —
/// have the same status and the same body.
pub proof fn lemma_dispatch_deterministic(
    m: Method,
    p: Seq<char>,
    status1: u16,
    body1: Seq<char>,
    status2: u16,
    body2: Seq<char>,
)
    requires
        status1 == spec_status(m, p),
        body1 == spec_body(m, p),
        status2 == spec_status(m, p),
        body2 == spec_body(m, p),
    ensures
        status1 == status2,
        body1 == body2,
{
}

} // verus!
