//! The event that travels through the broadcast bus to subscribers.
use vstd::prelude::*;
use crate::api_models::PublishRequest;
use crate::outside::{new_event_id, utc_now};

verus! {

/// An event inside the system: a unique identifier, the ray it belongs to,
/// the UTC time at which it was created, and its content.
#[derive(Debug, Clone)]
pub struct AppEvent {
    pub id: uuid::Uuid,
    pub ray_id: String,
    pub timestamp: chrono::NaiveDateTime,
    pub payload: String,
}

impl AppEvent {
    /// The event that a publish request becomes, given its identifier and time.
    pub open spec fn spec_from_request(
        request: PublishRequest,
        id: uuid::Uuid,
        timestamp: chrono::NaiveDateTime,
    ) -> AppEvent {
        AppEvent { id, ray_id: request.ray_id, timestamp, payload: request.payload }
    }

    /// Builds the event for a publish request with the given identifier and
    /// time; the ray and the content are those of the request.
    pub fn from_request(
        request: PublishRequest,
        id: uuid::Uuid,
        timestamp: chrono::NaiveDateTime,
    ) -> (event: AppEvent)
        ensures
            event == Self::spec_from_request(request, id, timestamp),
    {
        AppEvent { id, ray_id: request.ray_id, timestamp, payload: request.payload }
    }

    /// Builds the event for a publish request with a fresh random identifier
    /// and the current time; the ray and the content are those of the request.
    pub fn stamp(request: PublishRequest) -> (event: AppEvent)
        ensures
            event.ray_id == request.ray_id,
            event.payload == request.payload,
    {
        let id = new_event_id();
        let timestamp = utc_now();
        Self::from_request(request, id, timestamp)
    }

    /// The publish request that forwards this event to another server: the
    /// same ray and the same content.
    pub open spec fn spec_to_publish_request(self) -> PublishRequest {
        PublishRequest { ray_id: self.ray_id, payload: self.payload }
    }

    /// The publish request that forwards this event to another server.
    pub fn to_publish_request(&self) -> (request: PublishRequest)
        ensures
            request == self.spec_to_publish_request(),
    {
        PublishRequest { ray_id: self.ray_id.clone(), payload: self.payload.clone() }
    }

    /// Whether this event belongs to the ray `ray`.
    pub open spec fn spec_is_on_ray(self, ray: Seq<char>) -> bool {
        self.ray_id@ == ray
    }

    /// Whether this event belongs to the ray `ray`.
    pub fn is_on_ray(&self, ray: &String) -> (b: bool)
        ensures
            b == self.spec_is_on_ray(ray@),
    {
        self.ray_id == *ray
    }
}

} // verus!
