//! A thumbnail cache and a byte-range media server core.
//!
//! The crate verifies the logic of a desktop utility's media layer: a
//! persistent thumbnail cache (codec dispatch, staleness detection,
//! self-healing lookups) and the request parsing and range arithmetic of a
//! small loopback HTTP server for video playback, together with small
//! preset import/export helpers.

pub mod codec;
pub mod http;
pub mod mime;
pub mod preset;
pub mod request;
pub mod store;
pub mod thumbnail;
pub mod text;
