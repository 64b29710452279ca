//! What the server's endpoints decide: the health answer, the answer to a
//! publish request, and which received events a subscriber is sent.
use vstd::prelude::*;
use crate::api_models::{PublishRequest, SseParams};
use crate::app_event::AppEvent;
use crate::error::{ApiError, ApiErrorResponse};
use crate::server::app_state::AppState;
use crate::server::error::Error;

verus! {

/// The HTTP status code of a successful publish request.
pub const STATUS_OK: u16 = 200;

/// The answer to a health check.
pub fn health_check() -> (r: &'static str)
    ensures
        r@ == "Event Ray is Up"@,
{
    "Event Ray is Up"
}

/// The answer to a publish request whose event was handed to the broadcast
/// bus with result `sent`: 200 when the bus took it; when nobody was
/// subscribed, an internal server error caused by the failed broadcast.
pub open spec fn spec_publish_outcome(sent: Result<usize, AppEvent>) -> Result<u16, ApiError> {
    match sent {
        Ok(_) => Ok(STATUS_OK),
        Err(_) => Err(ApiError::InternalServerError),
    }
}

/// The answer to a publish request whose event was handed to the broadcast
/// bus with result `sent`.
pub fn publish_outcome(sent: Result<usize, AppEvent>) -> (r: Result<u16, ApiErrorResponse>)
    ensures
        spec_publish_outcome(sent) matches Ok(code) ==> r == Ok::<u16, ApiErrorResponse>(code),
        spec_publish_outcome(sent) matches Err(e) ==> (r matches Err(resp) && resp.error == e
            && resp.details@.len() == 1 && resp.details@[0]@ == Error::BroadcastSend.spec_message()),
{
    match sent {
        Ok(_) => Ok(STATUS_OK),
        Err(_) => Err(ApiErrorResponse::caused_by(
            ApiError::InternalServerError,
            Error::BroadcastSend.message(),
        )),
    }
}

/// The event that a publish request puts on the broadcast bus: a fresh
/// identifier, the current time, and the ray and content of the request.
pub fn publish_event(request: PublishRequest) -> (event: AppEvent)
    ensures
        event.ray_id == request.ray_id,
        event.payload == request.payload,
{
    AppEvent::stamp(request)
}

/// Publishes `publish_event(request)`, the event of `request` with a fresh
/// identifier and the current time, to every subscriber on the broadcast bus
/// of `state`, and answers with `publish_outcome` of the bus's result: 200
/// when the bus took the event, and an internal server error caused by the
/// failed broadcast when nobody was subscribed. Which of the two comes
/// depends on the subscribers of the moment; the record of `state` shows
/// which event was handed to the bus and whether it took it.
pub fn publish_event_handler(state: &mut AppState, request: PublishRequest) -> (r: Result<
    u16,
    ApiErrorResponse,
>)
    ensures
        final(state).sender() == old(state).sender(),
        final(state).handed().len() == old(state).handed().len() + 1,
        final(state).handed().drop_last() == old(state).handed(),
        final(state).handed().last().0.ray_id == request.ray_id,
        final(state).handed().last().0.payload == request.payload,
        final(state).sends().len() == old(state).sends().len() + 1,
        final(state).sends().drop_last() == old(state).sends(),
        final(state).sends().last().sender() == old(state).sender(),
        final(state).sends().last().event().ray_id == request.ray_id,
        final(state).sends().last().event().payload == request.payload,
        final(state).sends().last().outcome() is Ok ==> r == Ok::<u16, ApiErrorResponse>(STATUS_OK),
        final(state).sends().last().outcome() is Err ==> (r matches Err(resp)
            && resp.error == ApiError::InternalServerError),
        final(state).handed().last().1 ==> r == Ok::<u16, ApiErrorResponse>(STATUS_OK),
        !final(state).handed().last().1 ==> (r matches Err(resp)
            && resp.error == ApiError::InternalServerError && resp.details@.len() == 1
            && resp.details@[0]@ == Error::BroadcastSend.spec_message()),
{
    let event = publish_event(request);
    let sent = state.broadcast(event);
    proof {
        assert(state.handed().drop_last() =~= old(state).handed());
    }
    publish_outcome(sent)
}

/// What a subscriber's stream got from the broadcast bus.
#[derive(Debug, Clone)]
pub enum RecvOutcome {
    /// An event.
    Event(AppEvent),
    /// The subscriber fell behind and this many events were dropped for it.
    Lagged(u64),
    /// The bus was closed: no event will come any more.
    Closed,
}

/// What a subscriber's stream does with what it got.
#[derive(Debug, Clone)]
pub enum SseAction {
    /// Send this payload to the client as an event.
    Emit(String),
    /// Send nothing and wait for the next event.
    Skip,
    /// Note that this many events were missed, and wait for the next event.
    Lagged(u64),
    /// End the stream.
    Close,
}

/// The mathematical form of an `SseAction`.
pub enum SseActionView {
    Emit(Seq<char>),
    Skip,
    Lagged(u64),
    Close,
}

impl View for SseAction {
    type V = SseActionView;

    open spec fn view(&self) -> SseActionView {
        match self {
            SseAction::Emit(payload) => SseActionView::Emit(payload@),
            SseAction::Skip => SseActionView::Skip,
            SseAction::Lagged(n) => SseActionView::Lagged(*n),
            SseAction::Close => SseActionView::Close,
        }
    }
}

/// What a stream subscribed to `ray` does with `outcome`: an event of that ray
/// is sent with its payload, an event of another ray is skipped, a lag is
/// noted and the stream goes on, and a closed bus ends the stream.
pub open spec fn sse_decision(ray: Seq<char>, outcome: RecvOutcome) -> SseActionView {
    match outcome {
        RecvOutcome::Event(event) => if event.spec_is_on_ray(ray) {
            SseActionView::Emit(event.payload@)
        } else {
            SseActionView::Skip
        },
        RecvOutcome::Lagged(n) => SseActionView::Lagged(n),
        RecvOutcome::Closed => SseActionView::Close,
    }
}

/// Decides what the stream of a subscriber with parameters `params` does with
/// what it got from the broadcast bus.
pub fn sse_step(params: &SseParams, outcome: RecvOutcome) -> (action: SseAction)
    ensures
        action@ == sse_decision(params.ray@, outcome),
{
    match outcome {
        RecvOutcome::Event(event) => {
            if event.is_on_ray(&params.ray) {
                SseAction::Emit(event.payload)
            } else {
                SseAction::Skip
            }
        },
        RecvOutcome::Lagged(n) => SseAction::Lagged(n),
        RecvOutcome::Closed => SseAction::Close,
    }
}

} // verus!
