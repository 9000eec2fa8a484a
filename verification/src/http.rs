//! HTTP-level vocabulary of the service: request methods, the four fixed
//! routes, and the response value a handler produces.

use vstd::prelude::*;
use crate::text::str_eq;

verus! {

/// The request methods the service distinguishes. Everything beyond the
/// three methods the CORS policy names is folded into `Other`.
#[derive(Clone, Copy, PartialEq, Eq, Structural, Debug)]
pub enum Method {
    Get,
    Post,
    Options,
    Other,
}

/// The four fixed routes the router binds.
#[derive(Clone, Copy, PartialEq, Eq, Structural, Debug)]
pub enum Route {
    Root,
    Data,
    Error,
    Health,
}

/// A response as the service's logic sees it: a status code and a JSON
/// (or empty) body. Headers are the server layer's business.
pub struct HttpResponse {
    pub status: u16,
    pub body: String,
}

/// Which route, if any, a request path matches. Paths are matched exactly;
/// the query string is no part of the path.
pub open spec fn route_of(path: Seq<char>) -> Option<Route> {
    if path == "/"@ {
        Some(Route::Root)
    } else if path == "/data"@ {
        Some(Route::Data)
    } else if path == "/error"@ {
        Some(Route::Error)
    } else if path == "/health"@ {
        Some(Route::Health)
    } else {
        None
    }
}

/// Matches a request path against the four fixed routes.
pub fn match_route(path: &str) -> (r: Option<Route>)
    ensures
        r == route_of(path@),
{
    if str_eq(path, "/") {
        Some(Route::Root)
    } else if str_eq(path, "/data") {
        Some(Route::Data)
    } else if str_eq(path, "/error") {
        Some(Route::Error)
    } else if str_eq(path, "/health") {
        Some(Route::Health)
    } else {
        None
    }
}

} // verus!
