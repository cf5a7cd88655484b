//! Last-value cache between a publish/subscribe broker and a pull-based
//! consumer: payloads are classified, kept per topic, and rendered as one
//! JSON document on demand.

pub mod classify;
pub mod connection;
pub mod ingest;
pub mod json;
pub mod snapshot;
pub mod store;
pub mod text;
pub mod value;
