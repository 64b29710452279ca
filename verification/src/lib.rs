//! Event Ray: the decision logic of a server-sent-events broadcaster and of
//! the ingestion service that feeds it, with contracts proved by Verus.
pub mod outside;
pub mod config;
pub mod api_models;
pub mod app_event;
pub mod error;
pub mod server;
pub mod ingestion;
pub mod laws;
