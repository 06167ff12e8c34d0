//! Per-request failures of the forwarding pipeline. Each one is reported to
//! the caller as a bad-gateway response rather than tearing the handler down.

use vstd::prelude::*;

verus! {

/// Why a routed request could not be completed.
#[derive(Clone, Copy, Debug, PartialEq, Eq, Structural)]
pub enum ProxyError {
    /// The inbound request body is not valid UTF-8, so it cannot be logged.
    RequestBodyNotUtf8,
    /// The upstream response claims a content encoding its body does not have.
    ResponseDecodeFailed,
    /// The (decoded) upstream response body is not valid UTF-8.
    ResponseBodyNotUtf8,
}

} // verus!
