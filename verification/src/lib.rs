//! A DNS-over-HTTPS resolution library.
//!
//! The crate models DoH server descriptors, the decoded response shape,
//! a retry-and-dispatch orchestration loop over one or more servers, and
//! pluggable output strategies that turn each per-attempt outcome into a
//! human-readable rendering.

pub mod config;
pub mod handlers;
pub mod numeral;
pub mod query_type;
pub mod render;
pub mod resolver;
pub mod response;
pub mod server;
pub mod transport;
