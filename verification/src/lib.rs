//! A provider adapter for a Responses-API-compatible language-model backend.
//!
//! The crate verifies the response-acquisition pipeline: decoding a batch
//! response envelope into a domain message with usage accounting, framing a
//! raw byte stream into lines, translating streamed events into ordered
//! message fragments, deciding retries, and keeping a per-call request log
//! that is finalized exactly once. Network transport and JSON text parsing
//! live outside the library; callers hand in plain values.

pub mod json;
pub mod model;
pub mod decode;
pub mod framing;
pub mod streaming;
pub mod request;
pub mod provider;
