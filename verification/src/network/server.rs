//! What the HTTP server decides: which endpoint a request is for, and what
//! it answers where no positioning takes place.

use vstd::prelude::*;
use vstd::string::StringExecFns;
use crate::network::handlers::PositioningHandler;
use crate::network::response::HttpResponse;
use crate::network::response::HttpResponseView;
use crate::text::concat2;
use crate::text::text_is;

verus! {

/// The endpoints of the service.
#[derive(Clone, Copy, Debug, PartialEq, Eq, Structural)]
pub enum Endpoint {
    /// `GET /health`.
    Health,
    /// `POST /locate`.
    Locate,
    /// Anything else.
    NotFound,
}

/// The endpoint a request line is for.
pub open spec fn spec_route(method: Seq<char>, path: Seq<char>) -> Endpoint {
    if method == "GET"@ && path == "/health"@ {
        Endpoint::Health
    } else if method == "POST"@ && path == "/locate"@ {
        Endpoint::Locate
    } else {
        Endpoint::NotFound
    }
}

/// The endpoint a request line is for.
pub fn route(method: &str, path: &str) -> (r: Endpoint)
    ensures
        r == spec_route(method@, path@),
{
    let m = String::from_str(method);
    let p = String::from_str(path);
    if text_is(&m, "GET") && text_is(&p, "/health") {
        Endpoint::Health
    } else if text_is(&m, "POST") && text_is(&p, "/locate") {
        Endpoint::Locate
    } else {
        Endpoint::NotFound
    }
}

/// The body of the health endpoint's answer.
#[derive(Debug)]
pub struct ServiceHealth {
    pub status: String,
    /// How many beacons are registered.
    pub beacon_count: usize,
    /// The model's one-line summary.
    pub rssi_model: String,
}

/// The body of the answer to a request for no endpoint.
#[derive(Debug)]
pub struct UnknownEndpoint {
    pub status: String,
    pub message: String,
    /// The path that was asked for.
    pub path: String,
}

/// The health endpoint: the service is up, with this many beacons and this
/// model.
pub fn health(handler: &PositioningHandler) -> (r: ServiceHealth)
    ensures
        r.status@ == "ok"@,
        r.beacon_count == handler.registry().entries().len(),
        r.rssi_model@ == handler.model().summary(),
{
    ServiceHealth {
        status: String::from_str("ok"),
        beacon_count: handler.beacon_count(),
        rssi_model: handler.rssi_model_description(),
    }
}

/// The answer to a request for no endpoint.
pub fn unknown_endpoint(path: &str) -> (r: UnknownEndpoint)
    ensures
        r.status@ == "error"@,
        r.message@ == "未找到该端点"@,
        r.path@ == path@,
{
    UnknownEndpoint {
        status: String::from_str("error"),
        message: String::from_str("未找到该端点"),
        path: String::from_str(path),
    }
}

/// The answer to a request whose body could not be read: a bad request that
/// says why.
pub fn unreadable_body(detail: &str, now_ms: u64) -> (r: HttpResponse)
    ensures
        r@ == HttpResponseView::bad_request("无法读取请求体: "@ + detail@, now_ms),
{
    HttpResponse::bad_request_at(concat2("无法读取请求体: ", detail), now_ms)
}

/// The answer to a request whose body is no valid JSON request: a bad request
/// that says why.
pub fn malformed_body(detail: &str, now_ms: u64) -> (r: HttpResponse)
    ensures
        r@ == HttpResponseView::bad_request("JSON 格式错误: "@ + detail@, now_ms),
{
    HttpResponse::bad_request_at(concat2("JSON 格式错误: ", detail), now_ms)
}

} // verus!
