//! A jetstream consumer core: endpoint and option handling, subscription URLs,
//! reconnection backoff, event dispatch with cursor tracking, and the record
//! handling of the teal.fm ingestors and API.

pub mod text;
pub mod endpoints;
pub mod options;
pub mod connection;
pub mod event;
pub mod handler;
pub mod raw_handler;
pub mod play;
pub mod profile;
pub mod record_time;
pub mod api;
pub mod ingestion;
