//! The ingestion service: it accepts events from backend services and
//! forwards them to the Event Ray server, over HTTP or over Redis.
pub mod error;
pub mod handlers;
pub mod publisher;
