//! The Event Ray server: it accepts published events, broadcasts them on an
//! in-memory bus, relays events from Redis, and streams to each subscriber
//! the events of the ray it asked for.
pub mod app_state;
pub mod error;
pub mod handlers;
pub mod redis_subscriber;
