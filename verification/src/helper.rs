//! The router: which method/path pairs are bound, and to which handler.
//! Also the listening-address helper used at startup.

use vstd::prelude::*;
use vstd::pervasive::unreached;
use crate::strtool::str_eq;

verus! {

/// The request methods the router distinguishes.
#[derive(Clone, Copy, PartialEq, Eq, Structural, Debug)]
pub enum HttpMethod {
    Get,
    Post,
}

/// The handler a bound route dispatches to.
#[derive(Clone, Copy, PartialEq, Eq, Structural, Debug)]
pub enum RouteTarget {
    HomeBase,
    HealthCheck,
    DebugLogs,
    CreateNote,
    UserList,
    NoteList,
}

/// The full binding table.  Exactly six routes exist; in particular no
/// POST route for users is bound, although the create-user handler exists:
/// an inherited gap, kept as observable behaviour.
pub open spec fn spec_route(method: HttpMethod, path: Seq<char>) -> Option<RouteTarget> {
    if method == HttpMethod::Get && path == "/"@ {
        Some(RouteTarget::HomeBase)
    } else if method == HttpMethod::Get && path == "/api/health"@ {
        Some(RouteTarget::HealthCheck)
    } else if method == HttpMethod::Get && path == "/api/dev/debug/logs"@ {
        Some(RouteTarget::DebugLogs)
    } else if method == HttpMethod::Post && path == "/api/notes"@ {
        Some(RouteTarget::CreateNote)
    } else if method == HttpMethod::Get && path == "/api/users"@ {
        Some(RouteTarget::UserList)
    } else if method == HttpMethod::Get && path == "/api/notes"@ {
        Some(RouteTarget::NoteList)
    } else {
        None
    }
}

/// Dispatch: the handler bound to a method/path pair, or nothing when the
/// pair is unbound.
pub fn route_lookup(method: HttpMethod, path: &str) -> (r: Option<RouteTarget>)
    ensures
        r == spec_route(method, path@),
{
    match method {
        HttpMethod::Get => {
            if str_eq(path, "/") {
                Some(RouteTarget::HomeBase)
            } else if str_eq(path, "/api/health") {
                Some(RouteTarget::HealthCheck)
            } else if str_eq(path, "/api/dev/debug/logs") {
                Some(RouteTarget::DebugLogs)
            } else if str_eq(path, "/api/users") {
                Some(RouteTarget::UserList)
            } else if str_eq(path, "/api/notes") {
                Some(RouteTarget::NoteList)
            } else {
                None
            }
        },
        HttpMethod::Post => {
            if str_eq(path, "/api/notes") {
                Some(RouteTarget::CreateNote)
            } else {
                None
            }
        },
    }
}

/// The constructed router: the fixed binding table above together with the
/// shared state handed to every handler.
pub struct Router<S> {
    pub state: S,
}

impl<S> Router<S> {
    /// What the router does with an incoming request line: look the
    /// method/path pair up in the binding table.
    pub fn route(&self, method: HttpMethod, path: &str) -> (r: Option<RouteTarget>)
        ensures
            r == spec_route(method, path@),
    {
        route_lookup(method, path)
    }
}

/// Builds the router around the shared state.  Starting without state is
/// refused: callers must supply it, and the process edge treats a missing
/// pool as fatal before ever calling this.
pub fn router_create<S>(appstate: Option<S>) -> (r: Router<S>)
    requires
        appstate is Some,
    ensures
        appstate == Some(r.state),
{
    let state = match appstate {
        Some(s) => s,
        None => unreached(),
    };
    Router { state }
}

/// The listening address for a given port: the wildcard host joined with
/// the port text.
pub fn server_url_init(port: &str) -> (r: String)
    ensures
        r@ == "0.0.0.0:"@ + port@,
{
    let mut url = String::from_str("0.0.0.0:");
    url.append(port);
    url
}

} // verus!
