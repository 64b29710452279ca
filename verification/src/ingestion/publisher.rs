//! The publishers that forward ingested events to the Event Ray server.
pub mod http;
pub mod redis;
