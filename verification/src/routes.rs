//! The surface of the web server: which request goes where, and with which
//! status it is answered.

use crate::text::{ends_with, is_suffix, same_text};
use vstd::prelude::*;
use vstd::string::*;

verus! {

/// The status of an answer without a body.
pub const STATUS_NO_CONTENT: u16 = 204;

/// The status of an answer to a request that could not be read.
pub const STATUS_BAD_REQUEST: u16 = 400;

/// The status of an answer to a request for a file that is not there.
pub const STATUS_NOT_FOUND: u16 = 404;

/// The status of every answer while the server shuts down.
pub const STATUS_UNAVAILABLE: u16 = 503;

/// Where a request goes.
#[derive(Clone, Copy, Debug, PartialEq, Eq, Structural)]
pub enum Route {
    /// An administrative request in the body.
    DashboardRequest,
    /// A socket on which events are pushed.
    Events,
    /// A socket on which the frames of the video mirror are pushed.
    VideoMirror,
    /// A list of button values in the body.
    SetButtons,
    /// A probe of whether the server is alive.
    Ping,
    /// A file of the dashboard.
    Asset,
}

/// What the server does with a request.
#[derive(Clone, Copy, Debug, PartialEq, Eq, Structural)]
pub enum Admission {
    /// The server is shutting down: the request is refused.
    Refused,
    /// The request is handled on its route.
    Admitted(Route),
}

/// The route of a path.
pub open spec fn route_of(url: Seq<char>) -> Route {
    if url == "/api/dashboard-request"@ {
        Route::DashboardRequest
    } else if url == "/api/events"@ {
        Route::Events
    } else if url == "/api/video-mirror"@ {
        Route::VideoMirror
    } else if url == "/api/set-buttons"@ {
        Route::SetButtons
    } else if url == "/api/ping"@ {
        Route::Ping
    } else {
        Route::Asset
    }
}

/// The path of the file that a request on the asset route asks for: the
/// root stands for the dashboard's entry page.
pub open spec fn asset_uri_of(url: Seq<char>) -> Seq<char> {
    if url == "/"@ {
        "/index.html"@
    } else {
        url
    }
}

/// The content type of a file, by the ending of its name.
pub open spec fn content_type_of(uri: Seq<char>) -> Seq<char> {
    if is_suffix(".html"@, uri) {
        "text/html"@
    } else if is_suffix(".js"@, uri) {
        "text/javascript"@
    } else if is_suffix(".wasm"@, uri) {
        "application/wasm"@
    } else {
        "text/plain"@
    }
}

/// The place of a dashboard file below the directory `root`.
pub open spec fn asset_path_of(root: Seq<char>, uri: Seq<char>) -> Seq<char> {
    root + "/ui"@ + uri
}

/// The status with which a request that carries its input in the body is
/// answered.
pub open spec fn body_status_of(has_body: bool, well_formed: bool) -> u16 {
    if has_body && well_formed {
        STATUS_NO_CONTENT
    } else {
        STATUS_BAD_REQUEST
    }
}

/// Finds the route of a path.
pub fn route(url: &str) -> (found: Route)
    ensures
        found == route_of(url@),
{
    if same_text(url, "/api/dashboard-request") {
        Route::DashboardRequest
    } else if same_text(url, "/api/events") {
        Route::Events
    } else if same_text(url, "/api/video-mirror") {
        Route::VideoMirror
    } else if same_text(url, "/api/set-buttons") {
        Route::SetButtons
    } else if same_text(url, "/api/ping") {
        Route::Ping
    } else {
        Route::Asset
    }
}

/// Decides what the server does with a request. While the server shuts down
/// every request is refused, whatever its path.
pub fn screen(shutting_down: bool, url: &str) -> (admission: Admission)
    ensures
        admission == if shutting_down {
            Admission::Refused
        } else {
            Admission::Admitted(route_of(url@))
        },
{
    if shutting_down {
        Admission::Refused
    } else {
        Admission::Admitted(route(url))
    }
}

/// The status with which a request is answered before its route has done
/// any work: 503 for a request that is refused, and none otherwise.
pub fn admission_status(admission: Admission) -> (status: Option<u16>)
    ensures
        status == match admission {
            Admission::Refused => Some(STATUS_UNAVAILABLE),
            Admission::Admitted(_) => None,
        },
{
    match admission {
        Admission::Refused => Some(STATUS_UNAVAILABLE),
        Admission::Admitted(_) => None,
    }
}

/// The status with which a request that carries its input in the body is
/// answered: 204 if the body was there and could be read, 400 if not.
pub fn body_status(has_body: bool, well_formed: bool) -> (status: u16)
    ensures
        status == body_status_of(has_body, well_formed),
{
    if has_body && well_formed {
        STATUS_NO_CONTENT
    } else {
        STATUS_BAD_REQUEST
    }
}

/// The path of the file that a request on the asset route asks for.
pub fn asset_uri(url: &str) -> (uri: String)
    ensures
        uri@ == asset_uri_of(url@),
{
    if same_text(url, "/") {
        String::from_str("/index.html")
    } else {
        String::from_str(url)
    }
}

/// The content type of a file, by the ending of its name.
pub fn content_type(uri: &str) -> (name: &'static str)
    ensures
        name@ == content_type_of(uri@),
{
    if ends_with(uri, ".html") {
        "text/html"
    } else if ends_with(uri, ".js") {
        "text/javascript"
    } else if ends_with(uri, ".wasm") {
        "application/wasm"
    } else {
        "text/plain"
    }
}

/// The place of a dashboard file below the directory `root`.
pub fn asset_path(root: &str, uri: &str) -> (path: String)
    ensures
        path@ == asset_path_of(root@, uri@),
{
    let mut path = String::from_str(root);
    path.append("/ui");
    path.append(uri);
    path
}

} // verus!
