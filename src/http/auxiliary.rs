//! The auxiliary router: `GET /metrics` and `GET /health`, served on the
//! secondary address only.
use vstd::prelude::*;
use crate::http::exposition::exposition;
use crate::http::labels::bytes_equal;
use crate::http::metrics::{handler, Registry};

verus! {

/// A route of the auxiliary listener.
#[derive(Clone, Copy, Debug, PartialEq, Eq, Structural)]
pub enum AuxRoute {
    Metrics,
    Health,
    NotFound,
}

/// `GET`.
pub open spec fn get_text() -> Seq<u8> {
    seq![71u8, 69, 84]
}

/// `/metrics`.
pub open spec fn metrics_path() -> Seq<u8> {
    seq![47u8, 109, 101, 116, 114, 105, 99, 115]
}

/// `/health`.
pub open spec fn health_path() -> Seq<u8> {
    seq![47u8, 104, 101, 97, 108, 116, 104]
}

/// The route of a request to the auxiliary listener.
pub open spec fn aux_route_of(method: Seq<u8>, path: Seq<u8>) -> AuxRoute {
    if method == get_text() && path == metrics_path() {
        AuxRoute::Metrics
    } else if method == get_text() && path == health_path() {
        AuxRoute::Health
    } else {
        AuxRoute::NotFound
    }
}

/// Routes a request of the auxiliary listener by its method and path.
pub fn aux_route(method: &[u8], path: &[u8]) -> (r: AuxRoute)
    ensures
        r == aux_route_of(method@, path@),
{
    let get: Vec<u8> = vec![71u8, 69, 84];
    let metrics: Vec<u8> = vec![47u8, 109, 101, 116, 114, 105, 99, 115];
    let health_route: Vec<u8> = vec![47u8, 104, 101, 97, 108, 116, 104];
    assert(get@ =~= get_text());
    assert(metrics@ =~= metrics_path());
    assert(health_route@ =~= health_path());
    if !bytes_equal(method, get.as_slice()) {
        AuxRoute::NotFound
    } else if bytes_equal(path, metrics.as_slice()) {
        AuxRoute::Metrics
    } else if bytes_equal(path, health_route.as_slice()) {
        AuxRoute::Health
    } else {
        AuxRoute::NotFound
    }
}

/// The status of the health route: always 200. It does not look at the
/// application listener; it only tells that the process is alive.
pub fn health() -> (status: u16)
    ensures
        status == 200,
{
    200
}

/// The status and body of a request to the auxiliary listener.
pub fn aux_response(registry: &Registry, method: &[u8], path: &[u8]) -> (r: (u16, Vec<u8>))
    requires
        registry.wf(),
    ensures
        aux_route_of(method@, path@) == AuxRoute::Metrics ==> r.0 == 200 && r.1@ == exposition(
            registry@,
        ),
        aux_route_of(method@, path@) == AuxRoute::Health ==> r.0 == 200 && r.1@.len() == 0,
        aux_route_of(method@, path@) == AuxRoute::NotFound ==> r.0 == 404 && r.1@.len() == 0,
{
    match aux_route(method, path) {
        AuxRoute::Metrics => (200, handler(registry)),
        AuxRoute::Health => (health(), Vec::new()),
        AuxRoute::NotFound => (404, Vec::new()),
    }
}

} // verus!
