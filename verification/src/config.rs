//! Startup configuration: which forward proxy (if any) outbound traffic
//! must traverse, and which port to listen on. Both are resolved once,
//! before the first request is accepted; a malformed port is startup-fatal.

use vstd::prelude::*;
use crate::decimal::{parse_u16, parse_u16_spec};

verus! {

/// The default listening port when none is configured.
pub const DEFAULT_PORT: u16 = 4000;

/// How outbound connections reach the upstream: straight over HTTPS, or
/// tunnelled through one externally configured forward proxy. Chosen once
/// at startup and never changed.
#[derive(Clone, Copy, Debug, PartialEq, Eq, Structural)]
pub enum UpstreamMode {
    /// Talk to the upstream directly.
    Direct,
    /// Tunnel every outbound request through the configured forward proxy.
    ViaForwardProxy,
}

/// The view of an optional byte string.
pub open spec fn view_opt(o: Option<Vec<u8>>) -> Option<Seq<u8>> {
    match o {
        Some(v) => Some(v@),
        None => None,
    }
}

/// The first present candidate, in the fixed precedence order.
pub open spec fn first_present(
    a: Option<Seq<u8>>,
    b: Option<Seq<u8>>,
    c: Option<Seq<u8>>,
    d: Option<Seq<u8>>,
) -> Option<Seq<u8>> {
    if a is Some {
        a
    } else if b is Some {
        b
    } else if c is Some {
        c
    } else {
        d
    }
}

/// Picks the forward-proxy setting: the candidates are the values of the
/// four proxy designators, in their fixed precedence order (uppercase HTTP,
/// lowercase HTTP, uppercase HTTPS, lowercase HTTPS); the first present one
/// wins, and none at all means a direct connection.
pub fn select_forward_proxy(
    http_upper: Option<Vec<u8>>,
    http_lower: Option<Vec<u8>>,
    https_upper: Option<Vec<u8>>,
    https_lower: Option<Vec<u8>>,
) -> (r: Option<Vec<u8>>)
    ensures
        view_opt(r) == first_present(
            view_opt(http_upper),
            view_opt(http_lower),
            view_opt(https_upper),
            view_opt(https_lower),
        ),
{
    match http_upper {
        Some(v) => Some(v),
        None => match http_lower {
            Some(v) => Some(v),
            None => match https_upper {
                Some(v) => Some(v),
                None => https_lower,
            },
        },
    }
}

/// The connection mode implied by the resolved forward-proxy setting.
pub fn choose_mode(forward_proxy: &Option<Vec<u8>>) -> (r: UpstreamMode)
    ensures
        (r == UpstreamMode::ViaForwardProxy) == (forward_proxy is Some),
        (r == UpstreamMode::Direct) == (forward_proxy is None),
{
    match forward_proxy {
        Some(_) => UpstreamMode::ViaForwardProxy,
        None => UpstreamMode::Direct,
    }
}

/// Resolves the listening port from its configured value: absent means the
/// default, a malformed value means the process must not start serving.
pub fn resolve_port(configured: Option<&Vec<u8>>) -> (r: Option<u16>)
    ensures
        configured is None ==> r == Some(DEFAULT_PORT),
        configured matches Some(v) ==> r == parse_u16_spec(v@),
{
    match configured {
        Some(v) => parse_u16(v.as_slice()),
        None => Some(DEFAULT_PORT),
    }
}

/// The whole startup configuration, resolved once and read-only afterwards.
pub struct ProxyConfig {
    /// The port the service listens on.
    pub port: u16,
    /// The forward-proxy URI outbound traffic must traverse, if any.
    pub forward_proxy: Option<Vec<u8>>,
}

/// Resolves the startup configuration. `None` is startup-fatal: the port
/// value does not parse, so the service must not begin serving.
pub fn resolve_config(
    http_upper: Option<Vec<u8>>,
    http_lower: Option<Vec<u8>>,
    https_upper: Option<Vec<u8>>,
    https_lower: Option<Vec<u8>>,
    configured_port: Option<&Vec<u8>>,
) -> (r: Option<ProxyConfig>)
    ensures
        r matches Some(c) ==> {
            &&& view_opt(c.forward_proxy) == first_present(
                view_opt(http_upper),
                view_opt(http_lower),
                view_opt(https_upper),
                view_opt(https_lower),
            )
            &&& match configured_port {
                None => c.port == DEFAULT_PORT,
                Some(v) => parse_u16_spec(v@) == Some(c.port),
            }
        },
        r is None ==> (configured_port matches Some(v) && parse_u16_spec(v@) is None),
{
    let port = match resolve_port(configured_port) {
        Some(p) => p,
        None => {
            return None;
        },
    };
    let forward_proxy = select_forward_proxy(http_upper, http_lower, https_upper, https_lower);
    Some(ProxyConfig { port, forward_proxy })
}

} // verus!
