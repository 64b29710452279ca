use event_ray::api_models::PublishRequest;
use event_ray::app_event::AppEvent;
use event_ray::error::ApiError;
use event_ray::ingestion::error::Error;
use event_ray::ingestion::handlers::{health_check, ingest_event, ingest_outcome};
use event_ray::ingestion::publisher::http::{is_success, HttpPublisher};
use event_ray::ingestion::publisher::redis::RedisPublisher;

#[test]
fn ingestion_health_check_answers_ok() {
    assert_eq!(health_check(), "OK");
}

#[test]
fn ingest_event_keeps_ray_and_payload() {
    let event = ingest_event(PublishRequest { ray_id: "ray_2".to_string(), payload: "Greetings".to_string() });
    assert_eq!(event.ray_id, "ray_2");
    assert_eq!(event.payload, "Greetings");
}

#[test]
fn ingest_events_get_distinct_ids() {
    let a = ingest_event(PublishRequest { ray_id: "r".to_string(), payload: "p".to_string() });
    let b = ingest_event(PublishRequest { ray_id: "r".to_string(), payload: "p".to_string() });
    assert_ne!(a.id, b.id);
    assert_eq!(a.id.get_version_num(), 4);
}

#[test]
fn ingest_outcome_published_is_202() {
    assert!(matches!(ingest_outcome(Ok(())), Ok(202)));
}

#[test]
fn ingest_outcome_failure_is_500() {
    match ingest_outcome(Err(Error::PublishFailed)) {
        Err(response) => {
            assert_eq!(response.error, ApiError::InternalServerError);
            assert_eq!(response.details, vec!["Publisher failed to send event".to_string()]);
            assert_eq!(response.into_response(), (500, "Internal Server Error".to_string()));
        }
        Ok(_) => panic!("expected an error"),
    }
}

#[test]
fn success_statuses() {
    assert!(!is_success(199));
    assert!(is_success(200));
    assert!(is_success(202));
    assert!(is_success(299));
    assert!(!is_success(300));
    assert!(!is_success(400));
    assert!(!is_success(500));
}

#[test]
fn http_publish_outcome() {
    assert_eq!(HttpPublisher::publish_outcome(Some(200)), Ok(()));
    assert_eq!(HttpPublisher::publish_outcome(Some(204)), Ok(()));
    assert_eq!(HttpPublisher::publish_outcome(Some(400)), Err(Error::PublishFailed));
    assert_eq!(HttpPublisher::publish_outcome(Some(503)), Err(Error::PublishFailed));
    assert_eq!(HttpPublisher::publish_outcome(None), Err(Error::PublishFailed));
}

#[test]
fn http_publisher_posts_request_of_event() {
    let publisher = HttpPublisher::new("http://localhost:8081/api/events".to_string());
    assert_eq!(publisher.target_url(), "http://localhost:8081/api/events");
    let event = AppEvent::stamp(PublishRequest { ray_id: "ray_1".to_string(), payload: "hi".to_string() });
    let body = publisher.request_body(&event);
    assert_eq!(body.ray_id, "ray_1");
    assert_eq!(body.payload, "hi");
}

#[test]
fn redis_publisher_accepts_redis_urls() {
    let publisher = RedisPublisher::try_new("redis://127.0.0.1:6379".to_string(), "events".to_string())
        .expect("a redis URL is accepted");
    assert_eq!(publisher.channel(), "events");
    let publisher = RedisPublisher::new("redis://localhost/0".to_string(), "other".to_string());
    assert_eq!(publisher.channel(), "other");
}

#[test]
fn redis_publisher_refuses_other_urls() {
    assert!(RedisPublisher::try_new("http://localhost:6379".to_string(), "events".to_string()).is_none());
    assert!(RedisPublisher::try_new("not a url".to_string(), "events".to_string()).is_none());
    assert!(RedisPublisher::try_new(String::new(), "events".to_string()).is_none());
}

#[test]
fn error_message() {
    assert_eq!(Error::PublishFailed.message(), "Publisher failed to send event");
}
