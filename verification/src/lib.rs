//! The storage-abstraction layer of a multi-tenant vector store: point
//! identity, collection naming, payload encoding and the requests and replies
//! exchanged with the vector engine, with the rules of each stated as
//! contracts.

pub mod alerts;
pub mod auth;
pub mod clock;
pub mod codec;
pub mod config;
pub mod discord;
pub mod doc_stats;
pub mod documents;
pub mod engine;
pub mod error;
pub mod handlers;
pub mod metrics;
pub mod model;
pub mod models;
pub mod namespace;
pub mod payload;
pub mod point_id;
pub mod provision;
pub mod qdrant;
pub mod request_id;
pub mod stats;
pub mod text;
