use event_ray::api_models::{PublishRequest, SseParams};
use event_ray::app_event::AppEvent;
use event_ray::error::ApiErrorResponse;
use event_ray::ingestion::handlers::{ingest_event, ingest_outcome};
use event_ray::ingestion::publisher::http::HttpPublisher;
use event_ray::server::app_state::AppState;
use event_ray::server::handlers::{publish_event_handler, sse_step, RecvOutcome, SseAction};
use event_ray::server::redis_subscriber::{subscriber_step, RedisMessage, SubscriberAction};
use tokio::sync::broadcast;

fn event(ray: &str, payload: &str) -> AppEvent {
    AppEvent::stamp(PublishRequest { ray_id: ray.to_string(), payload: payload.to_string() })
}

/// Runs a subscriber's stream over what it receives, as the server does.
fn stream(ray: &str, outcomes: Vec<RecvOutcome>) -> Vec<String> {
    let params = SseParams { ray: ray.to_string() };
    let mut sent = Vec::new();
    for outcome in outcomes {
        match sse_step(&params, outcome) {
            SseAction::Emit(payload) => sent.push(payload),
            SseAction::Skip | SseAction::Lagged(_) => {}
            SseAction::Close => break,
        }
    }
    sent
}

#[test]
fn stream_sends_only_its_ray_in_order() {
    let outcomes = vec![
        RecvOutcome::Event(event("ray_1", "a")),
        RecvOutcome::Event(event("ray_2", "b")),
        RecvOutcome::Lagged(3),
        RecvOutcome::Event(event("ray_1", "c")),
        RecvOutcome::Event(event("ray_2", "d")),
    ];
    assert_eq!(stream("ray_1", outcomes), vec!["a".to_string(), "c".to_string()]);
}

#[test]
fn stream_sends_nothing_after_close() {
    let outcomes = vec![
        RecvOutcome::Event(event("ray_1", "a")),
        RecvOutcome::Closed,
        RecvOutcome::Event(event("ray_1", "late")),
    ];
    assert_eq!(stream("ray_1", outcomes), vec!["a".to_string()]);
}

#[test]
fn relay_forwards_events_until_stop() {
    let messages = vec![
        RedisMessage::Event(event("r", "1")),
        RedisMessage::Undecodable,
        RedisMessage::PayloadUnreadable,
        RedisMessage::Event(event("r", "2")),
        RedisMessage::StreamEnded,
        RedisMessage::Event(event("r", "3")),
    ];
    let mut forwarded = Vec::new();
    for message in messages {
        match subscriber_step(message) {
            SubscriberAction::Forward(e) => forwarded.push(e.payload),
            SubscriberAction::Discard => {}
            SubscriberAction::Stop(_) => break,
        }
    }
    assert_eq!(forwarded, vec!["1".to_string(), "2".to_string()]);
}

/// In process: an event published for a ray reaches the stream of a client
/// subscribed to that ray.
#[test]
fn publish_and_receive_single_event_on_ray_in_process() {
    let (sender, mut receiver) = broadcast::channel::<AppEvent>(1024);
    let mut state = AppState::new(sender);
    let ray_id = "0b6f3a64-2f7e-4bb1-9d8c-2b1b0c4d9e11".to_string();
    let payload = "test_payload_1".to_string();
    let answer = publish_event_handler(&mut state, PublishRequest { ray_id: ray_id.clone(), payload: payload.clone() });
    assert!(matches!(answer, Ok(200)));
    let received = receiver.try_recv().expect("broadcast");
    match sse_step(&SseParams { ray: ray_id }, RecvOutcome::Event(received)) {
        SseAction::Emit(sent) => assert_eq!(sent, payload),
        other => panic!("unexpected {other:?}"),
    }
}

/// In process, the path through the ingestion service: the request that the
/// HTTP publisher posts on reaches the subscriber of the ray with its content.
#[test]
fn ingested_event_reaches_server_subscriber() {
    let ingested = ingest_event(PublishRequest { ray_id: "ray_1".to_string(), payload: "hello".to_string() });
    let publisher = HttpPublisher::new("http://localhost:8081/api/events".to_string());
    let forwarded = publisher.request_body(&ingested);
    let (sender, mut receiver) = broadcast::channel::<AppEvent>(8);
    let mut state = AppState::new(sender);
    assert!(matches!(publish_event_handler(&mut state, forwarded), Ok(200)));
    assert!(matches!(ingest_outcome(HttpPublisher::publish_outcome(Some(200))), Ok(202)));
    let received = receiver.try_recv().expect("broadcast");
    assert_eq!(stream("ray_1", vec![RecvOutcome::Event(received.clone())]), vec!["hello".to_string()]);
    assert!(stream("ray_2", vec![RecvOutcome::Event(received)]).is_empty());
}

/// At the level of the error answer: a body that does not parse is answered
/// with 400.
#[test]
fn json_rejection_answer_is_400() {
    let response = ApiErrorResponse::from_json_rejection("EOF while parsing an object at line 1 column 49");
    assert_eq!(response.into_response().0, 400);
}
