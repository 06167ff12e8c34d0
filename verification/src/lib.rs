//! Core logic of a single-route HTTP reverse proxy.
//!
//! Inbound requests whose path starts with the fixed prefix `/openai/` are
//! rewritten (prefix stripped, target host substituted, `host` header
//! overwritten) and forwarded to the fixed upstream `api.openai.com` over
//! HTTPS; every other path is answered with an empty `200`. Upstream
//! responses are fully buffered, decoded for logging when gzip-encoded, and
//! re-framed with an exact `content-length`. The network plumbing lives
//! outside this crate; everything here is pure per-request logic.

pub mod bytes;
pub mod codec;
pub mod config;
pub mod decimal;
pub mod errors;
pub mod headers;
pub mod laws;
pub mod response;
pub mod route;
pub mod rewrite;
