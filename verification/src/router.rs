//! Request routing: reload endpoint or file transfer.
//!
//! A request is routed to a new notification session only when it targets
//! the reserved reload endpoint and a watch handle exists. Every other
//! request — including one for the endpoint while reload is disabled —
//! goes to the file-transfer collaborator, which answers "not found" for
//! the endpoint path since no such file exists under the root.

use vstd::prelude::*;
use vstd::string::*;

verus! {

/// Where one request goes.
#[derive(Clone, Copy, PartialEq, Eq, Structural, Debug)]
pub enum Route {
    /// Upgrade to a long-lived streaming response with a fresh session.
    OpenSession,
    /// Hand the path to the file-transfer collaborator.
    ServeFile,
}

/// The reserved path of the reload endpoint.
pub open spec fn reload_endpoint() -> Seq<char> {
    "/__serena"@
}

/// Where a request for `path` goes when a watch handle is (not) present.
pub open spec fn route_spec(path: Seq<char>, watcher_present: bool) -> Route {
    if path == reload_endpoint() && watcher_present {
        Route::OpenSession
    } else {
        Route::ServeFile
    }
}

/// The reload endpoint's path, for the driver to compare and to print.
pub fn reload_endpoint_path() -> (s: &'static str)
    ensures
        s@ == reload_endpoint(),
{
    "/__serena"
}

/// Route one request: a session exactly for the reload endpoint with a
/// live watch handle, the file collaborator for everything else.
pub fn route_request(path: &str, watcher_present: bool) -> (r: Route)
    ensures
        r == route_spec(path@, watcher_present),
{
    if watcher_present {
        let is_endpoint = String::from_str(path) == String::from_str("/__serena");
        if is_endpoint {
            return Route::OpenSession;
        }
    }
    Route::ServeFile
}

} // verus!
