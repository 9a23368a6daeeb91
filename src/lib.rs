//! Bulk import of record names: classification of a pasted batch against an
//! existing record store, declarative patches over the three buckets of an
//! import, and the client-side bookkeeping that keeps a cached copy in step
//! with the server.

pub mod api;
pub mod bulk;
pub mod bulk_page;
pub mod client;
pub mod config;
pub mod ids;
pub mod laws;
pub mod patch;
pub mod pipeline;
pub mod query;
pub mod records;
pub mod roles;
pub mod text;

pub use ids::{Timestamp, Uuid};
