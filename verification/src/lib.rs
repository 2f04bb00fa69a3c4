//! A client binding for the Porridge vector-embedding service: a blocking
//! call surface over an internally managed asynchronous HTTP engine.
//!
//! Four operations — store, search, retrieve, heartbeat — each build one
//! request against a fixed path of the configured base URL and hand it to a
//! transport serialized by a lock around the execution context. Request
//! construction (URLs, JSON bodies, escaping) and outcome mapping are
//! verified; the network itself sits behind the trusted wrappers in [`ext`].

use vstd::prelude::*;

pub mod body;
pub mod client;
pub mod entry;
pub mod errors;
pub mod ext;
pub mod json;
pub mod request;

pub use client::PorridgeClient;
pub use entry::EmbeddingEntry;
pub use errors::ClientError;

verus! {

} // verus!
