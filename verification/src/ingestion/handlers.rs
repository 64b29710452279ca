//! What the ingestion endpoints decide: the health answer, the event made of
//! an accepted request, and the answer once the publisher is done.
use vstd::prelude::*;
use crate::api_models::PublishRequest;
use crate::app_event::AppEvent;
use crate::error::{ApiError, ApiErrorResponse};
use crate::ingestion::error::Error;

verus! {

/// The HTTP status code of an accepted ingestion request.
pub const STATUS_ACCEPTED: u16 = 202;

/// The answer to a health check.
pub fn health_check() -> (r: &'static str)
    ensures
        r@ == "OK"@,
{
    "OK"
}

/// The event to publish for an ingestion request: a fresh identifier, the
/// current time, and the ray and content of the request.
pub fn ingest_event(request: PublishRequest) -> (event: AppEvent)
    ensures
        event.ray_id == request.ray_id,
        event.payload == request.payload,
{
    AppEvent::stamp(request)
}

/// The answer to an ingestion request whose event the publisher handled with
/// result `published`: 202 when it was published, and otherwise an internal
/// server error caused by the publisher's failure.
pub open spec fn spec_ingest_outcome(published: Result<(), Error>) -> Result<u16, ApiError> {
    match published {
        Ok(()) => Ok(STATUS_ACCEPTED),
        Err(_) => Err(ApiError::InternalServerError),
    }
}

/// The answer to an ingestion request whose event the publisher handled with
/// result `published`.
pub fn ingest_outcome(published: Result<(), Error>) -> (r: Result<u16, ApiErrorResponse>)
    ensures
        spec_ingest_outcome(published) matches Ok(code) ==> r == Ok::<u16, ApiErrorResponse>(code),
        published matches Err(cause) ==> (r matches Err(resp)
            && resp.error == ApiError::InternalServerError && resp.details@.len() == 1
            && resp.details@[0]@ == cause.spec_message()),
{
    match published {
        Ok(()) => Ok(STATUS_ACCEPTED),
        Err(cause) => Err(ApiErrorResponse::caused_by(ApiError::InternalServerError, cause.message())),
    }
}

} // verus!
