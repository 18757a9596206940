//! Verified core of a content-addressed media index: stream event routing and
//! projection, content-identifier integrity checks, bounded media fetching and
//! the relay connection lifecycle.
pub mod connection;
pub mod content_id;
pub mod event;
pub mod fetch;
pub mod keys;
pub mod media;
pub mod projector;
pub mod query;
pub mod rows;
pub mod serve;
pub mod status;
pub mod store;
pub mod text;
pub mod timestamps;
