//! The routes of the service and the responses they give.
//!
//! The service has one endpoint, a health check mounted under a versioned
//! prefix. [`init`] registers it in a [`ServiceConfig`]; a server that honours
//! that table answers each request as [`ServiceConfig::dispatch`] does.

use vstd::prelude::*;

verus! {

/// The method of a request.
#[derive(Debug, Clone, Copy, PartialEq, Eq, Structural)]
pub enum Method {
    Get,
    Head,
    Post,
    Put,
    Delete,
    Connect,
    Options,
    Trace,
    Patch,
    /// Any method outside the standard ones.
    Other,
}

/// A request as the router sees it.
#[derive(Debug, Clone, PartialEq, Eq)]
pub struct Request {
    pub method: Method,
    /// The path of the request target as the server matches it: without the
    /// query string, and with the percent-escapes that the server undoes
    /// before matching already undone.
    pub path: String,
    /// The query string, without the leading `?`.
    pub query: String,
    /// Header names and values, in the order received.
    pub headers: Vec<(String, String)>,
    pub body: Vec<u8>,
}

/// The mathematical value of a [`Request`].
pub struct RequestView {
    pub method: Method,
    pub path: Seq<char>,
    pub query: Seq<char>,
    pub headers: Seq<(Seq<char>, Seq<char>)>,
    pub body: Seq<u8>,
}

impl View for Request {
    type V = RequestView;

    open spec fn view(&self) -> RequestView {
        RequestView {
            method: self.method,
            path: self.path@,
            query: self.query@,
            headers: self.headers@.map_values(|header: (String, String)| (header.0@, header.1@)),
            body: self.body@,
        }
    }
}

/// A response: the status code, the content type and the body.
#[derive(Debug, Clone, PartialEq, Eq)]
pub struct Response {
    pub status: u16,
    /// The value of the `Content-Type` header, where the response has one.
    pub content_type: Option<String>,
    pub body: String,
}

/// The mathematical value of a [`Response`].
pub struct ResponseView {
    pub status: u16,
    pub content_type: Option<Seq<char>>,
    pub body: Seq<char>,
}

impl View for Response {
    type V = ResponseView;

    open spec fn view(&self) -> ResponseView {
        ResponseView {
            status: self.status,
            content_type: match self.content_type {
                Some(content_type) => Some(content_type@),
                None => None,
            },
            body: self.body@,
        }
    }
}

/// The handlers that a route can lead to.
#[derive(Debug, Clone, Copy, PartialEq, Eq, Structural)]
pub enum Handler {
    /// Reports that the process is alive.
    HealthCheck,
}

/// One registered route: requests with this method and path, relative to the
/// scope that holds the route, go to the handler.
#[derive(Debug, Clone, PartialEq, Eq)]
pub struct Route {
    pub method: Method,
    pub path: String,
    pub handler: Handler,
}

/// The mathematical value of a [`Route`].
pub struct RouteView {
    pub method: Method,
    pub path: Seq<char>,
    pub handler: Handler,
}

impl View for Route {
    type V = RouteView;

    open spec fn view(&self) -> RouteView {
        RouteView { method: self.method, path: self.path@, handler: self.handler }
    }
}

/// A group of routes mounted under a common path prefix.
#[derive(Debug, Clone, PartialEq, Eq)]
pub struct Scope {
    pub prefix: String,
    pub routes: Vec<Route>,
}

/// The mathematical value of a [`Scope`].
pub struct ScopeView {
    pub prefix: Seq<char>,
    pub routes: Seq<RouteView>,
}

impl View for Scope {
    type V = ScopeView;

    open spec fn view(&self) -> ScopeView {
        ScopeView {
            prefix: self.prefix@,
            routes: self.routes@.map_values(|route: Route| route@),
        }
    }
}

/// The routes registered with a server, as a list of scopes in the order of
/// registration.
#[derive(Debug, Clone, PartialEq, Eq)]
pub struct ServiceConfig {
    pub scopes: Vec<Scope>,
}

impl View for ServiceConfig {
    type V = Seq<ScopeView>;

    open spec fn view(&self) -> Seq<ScopeView> {
        self.scopes@.map_values(|scope: Scope| scope@)
    }
}

/// The prefix under which the API is mounted.
pub open spec fn api_prefix() -> Seq<char> {
    "/api/v1"@
}

/// The path of the health check inside the API scope.
pub open spec fn health_check_path() -> Seq<char> {
    "/healthCheck"@
}

/// The full path of the health check.
pub open spec fn health_check_url() -> Seq<char> {
    "/api/v1/healthCheck"@
}

/// The body of the health check's response.
pub open spec fn health_check_body() -> Seq<char> {
    "Server is working!"@
}

/// The content type of the health check's response.
pub open spec fn health_check_content_type() -> Seq<char> {
    "text/plain"@
}

/// The response of the health check: status 200, plain text, the fixed body.
pub open spec fn ok_response() -> ResponseView {
    ResponseView {
        status: 200,
        content_type: Some(health_check_content_type()),
        body: health_check_body(),
    }
}

/// The response to a request that no route matches: status 404, no content
/// type, empty body.
pub open spec fn not_found_response() -> ResponseView {
    ResponseView { status: 404, content_type: None, body: Seq::empty() }
}

/// The response that a handler gives. It depends on nothing but the handler.
pub open spec fn response_of(handler: Handler) -> ResponseView {
    match handler {
        Handler::HealthCheck => ok_response(),
    }
}

/// The scope that [`init`] registers: the health check, for `GET`, under the
/// API prefix.
pub open spec fn api_scope() -> ScopeView {
    ScopeView {
        prefix: api_prefix(),
        routes: seq![
            RouteView {
                method: Method::Get,
                path: health_check_path(),
                handler: Handler::HealthCheck,
            },
        ],
    }
}

/// The health check: always status 200 with the plain-text body
/// `Server is working!`.
pub fn health_check() -> (response: Response)
    ensures
        response@ == ok_response(),
{
    Response {
        status: 200,
        content_type: Some("text/plain".to_owned()),
        body: "Server is working!".to_owned(),
    }
}

/// The answer to a request that no route matches.
pub fn not_found() -> (response: Response)
    ensures
        response@ == not_found_response(),
{
    Response { status: 404, content_type: None, body: String::new() }
}

impl Handler {
    /// Runs the handler.
    pub fn respond(self) -> (response: Response)
        ensures
            response@ == response_of(self),
    {
        match self {
            Handler::HealthCheck => health_check(),
        }
    }
}

/// Registers the routes of the service: mounts a scope at `/api/v1` and, within
/// it, the health check for `GET /healthCheck`. What was registered before stays.
pub fn init(cfg: &mut ServiceConfig)
    ensures
        final(cfg)@ == old(cfg)@.push(api_scope()),
{
    let mut routes: Vec<Route> = Vec::new();
    routes.push(
        Route {
            method: Method::Get,
            path: "/healthCheck".to_owned(),
            handler: Handler::HealthCheck,
        },
    );
    let scope = Scope { prefix: "/api/v1".to_owned(), routes };
    assert(scope@.routes =~= api_scope().routes);
    cfg.scopes.push(scope);
}

/// Whether a route, mounted under `prefix`, takes a request: the method is the
/// route's and the path is the prefix followed by the route's path, exactly.
pub open spec fn route_matches(
    prefix: Seq<char>,
    route: RouteView,
    method: Method,
    path: Seq<char>,
) -> bool {
    route.method == method && prefix + route.path == path
}

/// The handler of the first of `routes`, mounted under `prefix`, that takes the
/// request, if any does.
pub open spec fn find_route(
    prefix: Seq<char>,
    routes: Seq<RouteView>,
    method: Method,
    path: Seq<char>,
) -> Option<Handler>
    decreases routes.len(),
{
    if routes.len() == 0 {
        None
    } else if route_matches(prefix, routes[0], method, path) {
        Some(routes[0].handler)
    } else {
        find_route(prefix, routes.drop_first(), method, path)
    }
}

/// The handler that the request reaches: that of the first matching route, the
/// scopes taken in the order of registration and the routes of each in theirs.
pub open spec fn find_handler(scopes: Seq<ScopeView>, method: Method, path: Seq<char>) -> Option<
    Handler,
>
    decreases scopes.len(),
{
    if scopes.len() == 0 {
        None
    } else {
        match find_route(scopes[0].prefix, scopes[0].routes, method, path) {
            Some(handler) => Some(handler),
            None => find_handler(scopes.drop_first(), method, path),
        }
    }
}

/// The response to `request` under the registered `scopes`: that of the handler
/// the request reaches, and not found if it reaches none. Only the method and
/// the path of the request count.
pub open spec fn answer(scopes: Seq<ScopeView>, request: RequestView) -> ResponseView {
    match find_handler(scopes, request.method, request.path) {
        Some(handler) => response_of(handler),
        None => not_found_response(),
    }
}

impl Scope {
    /// Looks for the first route of this scope that takes the request.
    pub fn find(&self, method: Method, path: &String) -> (found: Option<Handler>)
        ensures
            found == find_route(self@.prefix, self@.routes, method, path@),
    {
        let mut i: usize = 0;
        assert(self@.routes.skip(0) =~= self@.routes);
        while i < self.routes.len()
            invariant
                i <= self.routes.len(),
                find_route(self@.prefix, self@.routes, method, path@) == find_route(
                    self@.prefix,
                    self@.routes.skip(i as int),
                    method,
                    path@,
                ),
            decreases self.routes.len() - i,
        {
            let route = &self.routes[i];
            let mut full = self.prefix.clone();
            full.append(route.path.as_str());
            if route.method == method && full == *path {
                return Some(route.handler);
            }
            assert(self@.routes.skip(i as int).drop_first() =~= self@.routes.skip(i + 1));
            i += 1;
        }
        None
    }
}

impl ServiceConfig {
    /// A configuration with nothing registered.
    pub fn new() -> (cfg: ServiceConfig)
        ensures
            cfg@ == Seq::<ScopeView>::empty(),
    {
        ServiceConfig { scopes: Vec::new() }
    }

    /// Looks for the handler that a request with this method and path reaches.
    pub fn resolve(&self, method: Method, path: &String) -> (found: Option<Handler>)
        ensures
            found == find_handler(self@, method, path@),
    {
        let mut i: usize = 0;
        assert(self@.skip(0) =~= self@);
        while i < self.scopes.len()
            invariant
                i <= self.scopes.len(),
                find_handler(self@, method, path@) == find_handler(
                    self@.skip(i as int),
                    method,
                    path@,
                ),
            decreases self.scopes.len() - i,
        {
            match self.scopes[i].find(method, path) {
                Some(handler) => {
                    return Some(handler);
                },
                None => {},
            }
            assert(self@.skip(i as int).drop_first() =~= self@.skip(i + 1));
            i += 1;
        }
        None
    }

    /// Answers a request: the response of the handler that it reaches, or not
    /// found. The query string, the headers and the body play no part.
    pub fn dispatch(&self, request: &Request) -> (response: Response)
        ensures
            response@ == answer(self@, request@),
    {
        match self.resolve(request.method, &request.path) {
            Some(handler) => handler.respond(),
            None => not_found(),
        }
    }
}

/// The routes of the service: what a configuration holds once [`init`] has run
/// on an empty one.
pub open spec fn service_routes() -> Seq<ScopeView> {
    Seq::<ScopeView>::empty().push(api_scope())
}

/// The API prefix followed by the health check's path is `/api/v1/healthCheck`.
pub proof fn lemma_health_check_url()
    ensures
        api_prefix() + health_check_path() == health_check_url(),
{
    reveal_strlit("/api/v1");
    reveal_strlit("/healthCheck");
    reveal_strlit("/api/v1/healthCheck");
}

/// The service answers every request in one of two ways: `GET` on
/// `/api/v1/healthCheck` gets the health check's response, and everything else
/// is not found.
pub proof fn lemma_service_answers(request: RequestView)
    ensures
        answer(service_routes(), request) == if request.method == Method::Get && request.path
            == health_check_url() {
            ok_response()
        } else {
            not_found_response()
        },
{
    lemma_health_check_url();
    let later_routes = api_scope().routes.drop_first();
    let later_scopes = service_routes().drop_first();
    assert(find_route(api_prefix(), later_routes, request.method, request.path) is None);
    assert(find_handler(later_scopes, request.method, request.path) is None);
}

/// `GET /api/v1/healthCheck` always returns status 200 and the body
/// `Server is working!`, as plain text, whatever the query string, the headers
/// and the body of the request.
pub proof fn lemma_health_check_always_ok(request: RequestView)
    requires
        request.method == Method::Get,
        request.path == health_check_url(),
    ensures
        answer(service_routes(), request).status == 200,
        answer(service_routes(), request).body == health_check_body(),
        answer(service_routes(), request).content_type == Some(health_check_content_type()),
{
    lemma_service_answers(request);
}

/// Any path other than `/api/v1/healthCheck` returns not found, whatever the
/// method.
pub proof fn lemma_other_paths_not_found(request: RequestView)
    requires
        request.path != health_check_url(),
    ensures
        answer(service_routes(), request) == not_found_response(),
        answer(service_routes(), request).status == 404,
{
    lemma_service_answers(request);
}

} // verus!
