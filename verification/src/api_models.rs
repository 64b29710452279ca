//! The shapes of the requests that the services accept.
use vstd::prelude::*;

verus! {

/// A request to publish an event: the ray (event stream) it belongs to and
/// its content.
#[derive(Debug, Clone)]
pub struct PublishRequest {
    pub ray_id: String,
    pub payload: String,
}

/// The query parameters of a subscription: the ray whose events the client
/// wants to receive.
#[derive(Debug, Clone)]
pub struct SseParams {
    pub ray: String,
}

} // verus!
