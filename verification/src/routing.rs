//! Which endpoint stands behind which method and path, and who may call from elsewhere.
use vstd::prelude::*;

use crate::platform::{Endpoint, Method};

verus! {

/// A route: requests with the method whose path matches the pattern go to the endpoint.
#[derive(Debug, PartialEq, Eq)]
pub struct Route {
    pub method: Method,
    pub pattern: String,
    pub endpoint: Endpoint,
}

/// What [`Route`] stands for.
pub struct RouteView {
    pub method: Method,
    pub pattern: Seq<char>,
    pub endpoint: Endpoint,
}

impl DeepView for Route {
    type V = RouteView;

    open spec fn deep_view(&self) -> RouteView {
        RouteView { method: self.method, pattern: self.pattern@, endpoint: self.endpoint }
    }
}

/// The cross-origin policy: where requests may come from, and with which methods and headers.
#[derive(Debug, PartialEq, Eq)]
pub struct CorsPolicy {
    pub origins: Vec<String>,
    pub methods: Vec<Method>,
    pub allowed_headers: Vec<String>,
}

/// What stands behind a pattern that no route has, with any method.
pub const FALLBACK_PATTERN: &'static str = "/:any";

/// The routes of the worker.
pub open spec fn routes_view() -> Seq<RouteView> {
    seq![
        RouteView {
            method: Method::Get,
            pattern: "/history/:symbol"@,
            endpoint: Endpoint::History,
        },
        RouteView { method: Method::Put, pattern: "/symbols"@, endpoint: Endpoint::PutSymbols },
        RouteView { method: Method::Get, pattern: "/symbols"@, endpoint: Endpoint::GetSymbols },
        RouteView {
            method: Method::Put,
            pattern: "/collecting"@,
            endpoint: Endpoint::PutCollecting,
        },
        RouteView {
            method: Method::Get,
            pattern: "/collecting"@,
            endpoint: Endpoint::GetCollecting,
        },
        RouteView { method: Method::Get, pattern: "/all_symbols"@, endpoint: Endpoint::AllSymbols },
    ]
}

/// A route.
fn route(method: Method, pattern: &str, endpoint: Endpoint) -> (route: Route)
    ensures
        route.deep_view() == (RouteView { method, pattern: pattern@, endpoint }),
{
    Route { method, pattern: pattern.to_owned(), endpoint }
}

/// The routes of the worker.
pub fn routes() -> (routes: Vec<Route>)
    ensures
        routes.deep_view() == routes_view(),
{
    let mut routes: Vec<Route> = Vec::new();
    routes.push(route(Method::Get, "/history/:symbol", Endpoint::History));
    routes.push(route(Method::Put, "/symbols", Endpoint::PutSymbols));
    routes.push(route(Method::Get, "/symbols", Endpoint::GetSymbols));
    routes.push(route(Method::Put, "/collecting", Endpoint::PutCollecting));
    routes.push(route(Method::Get, "/collecting", Endpoint::GetCollecting));
    routes.push(route(Method::Get, "/all_symbols", Endpoint::AllSymbols));
    assert(routes.deep_view() =~= routes_view());
    routes
}

/// The cross-origin policy of the worker.
pub fn cors_policy() -> (policy: CorsPolicy)
    ensures
        policy.origins.deep_view() == seq!["http://127.0.0.1:8080"@],
        policy.methods@ == seq![Method::Get, Method::Put, Method::Options],
        policy.allowed_headers.deep_view() == seq![
            "Content-Type"@,
            "Authorization"@,
            "Cache-Control"@,
            "X-Secret-Key"@,
        ],
{
    let mut origins: Vec<String> = Vec::new();
    origins.push("http://127.0.0.1:8080".to_owned());
    let mut methods: Vec<Method> = Vec::new();
    methods.push(Method::Get);
    methods.push(Method::Put);
    methods.push(Method::Options);
    let mut allowed_headers: Vec<String> = Vec::new();
    allowed_headers.push("Content-Type".to_owned());
    allowed_headers.push("Authorization".to_owned());
    allowed_headers.push("Cache-Control".to_owned());
    allowed_headers.push("X-Secret-Key".to_owned());
    assert(origins.deep_view() =~= seq!["http://127.0.0.1:8080"@]);
    assert(methods@ =~= seq![Method::Get, Method::Put, Method::Options]);
    assert(allowed_headers.deep_view() =~= seq![
        "Content-Type"@,
        "Authorization"@,
        "Cache-Control"@,
        "X-Secret-Key"@,
    ]);
    CorsPolicy { origins, methods, allowed_headers }
}

} // verus!
