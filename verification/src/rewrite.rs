//! The request rewriter: strips the route prefix from the path, retargets
//! the URI at the fixed upstream host, overwrites the `host` header, and
//! carries the captured body over unchanged.

use vstd::prelude::*;
use crate::bytes::{append_bytes, tail_of};
use crate::codec::is_utf8;
use crate::codec::utf8_check;
use crate::errors::ProxyError;
use crate::headers::{Headers, lookup};
use crate::route::{is_forwarded, route, route_prefix_spec};

verus! {

/// The fixed upstream host, `api.openai.com`.
pub open spec fn upstream_host_spec() -> Seq<u8> {
    seq![97, 112, 105, 46, 111, 112, 101, 110, 97, 105, 46, 99, 111, 109]
}

/// The scheme-and-host base of every forwarded URI, `https://api.openai.com`.
pub open spec fn uri_base_spec() -> Seq<u8> {
    seq![104, 116, 116, 112, 115, 58, 47, 47] + upstream_host_spec()
}

/// The name of the host header.
pub open spec fn host_key_spec() -> Seq<u8> {
    seq![104, 111, 115, 116]
}

/// The fixed upstream host as bytes.
pub fn upstream_host() -> (r: Vec<u8>)
    ensures
        r@ == upstream_host_spec(),
{
    let mut r: Vec<u8> = Vec::new();
    r.push(97);
    r.push(112);
    r.push(105);
    r.push(46);
    r.push(111);
    r.push(112);
    r.push(101);
    r.push(110);
    r.push(97);
    r.push(105);
    r.push(46);
    r.push(99);
    r.push(111);
    r.push(109);
    assert(r@ =~= upstream_host_spec());
    r
}

/// The name of the host header as bytes.
pub fn host_key() -> (r: Vec<u8>)
    ensures
        r@ == host_key_spec(),
{
    let mut r: Vec<u8> = Vec::new();
    r.push(104);
    r.push(111);
    r.push(115);
    r.push(116);
    assert(r@ =~= host_key_spec());
    r
}

/// The forwarded path: the route prefix replaced by a single `/`.
pub open spec fn rewritten_path_spec(path: Seq<u8>) -> Seq<u8>
    recommends
        is_forwarded(path),
{
    seq![47] + path.skip(route_prefix_spec().len() as int)
}

/// The view of an optional raw query string; absent means empty.
pub open spec fn query_view(query: Option<Seq<u8>>) -> Seq<u8> {
    match query {
        Some(q) => q,
        None => Seq::empty(),
    }
}

/// The full forwarded URI. The query, when present, is appended directly
/// after the path with no `?` between them: an unusual concatenation, but
/// the service's deliberate wire behaviour, pinned down here and covered by
/// an explicit test rather than silently "fixed".
pub open spec fn forward_uri_spec(path: Seq<u8>, query: Option<Seq<u8>>) -> Seq<u8>
    recommends
        is_forwarded(path),
{
    uri_base_spec() + rewritten_path_spec(path) + query_view(query)
}

/// Builds the forwarded URI for an accepted path.
pub fn forward_uri(path: &[u8], query: Option<&[u8]>) -> (r: Vec<u8>)
    requires
        is_forwarded(path@),
    ensures
        r@ == forward_uri_spec(
            path@,
            match query {
                Some(q) => Some(q@),
                None => None,
            },
        ),
{
    let mut r: Vec<u8> = Vec::new();
    let mut base = Vec::new();
    base.push(104);
    base.push(116);
    base.push(116);
    base.push(112);
    base.push(115);
    base.push(58);
    base.push(47);
    base.push(47);
    assert(base@ =~= seq![104, 116, 116, 112, 115, 58, 47, 47]);
    append_bytes(&mut r, base.as_slice());
    let host = upstream_host();
    append_bytes(&mut r, host.as_slice());
    r.push(47);
    let tail = tail_of(path, 8);
    append_bytes(&mut r, tail.as_slice());
    match query {
        Some(q) => {
            append_bytes(&mut r, q);
            assert(r@ =~= forward_uri_spec(path@, Some(q@)));
        },
        None => {
            assert(r@ =~= forward_uri_spec(path@, None::<Seq<u8>>));
        },
    }
    r
}

/// A routed request after rewriting, ready to be dispatched upstream.
pub struct ForwardPlan {
    /// The request method, exactly the one that came in.
    pub method: Vec<u8>,
    /// The forwarded URI.
    pub uri: Vec<u8>,
    /// The headers to send, with `host` overwritten.
    pub headers: Headers,
    /// The captured body, byte for byte the one that was received.
    pub body: Vec<u8>,
}

/// What the router decides for one inbound request.
pub enum RequestAction {
    /// The path is outside the route prefix: answer `200` with an empty body.
    RespondEmptyOk,
    /// The path is under the route prefix: dispatch this plan upstream.
    Forward(ForwardPlan),
}

/// Routes and rewrites one inbound request.
///
/// Paths outside the fixed prefix are passed through to an empty `200`
/// regardless of method, headers or body. Routed requests have their body
/// captured for logging, which requires it to be valid UTF-8; the rewritten
/// request carries the method and body bytes unchanged, the forwarded URI,
/// and the original headers with `host` overwritten to the fixed upstream
/// host.
pub fn plan_request(
    method: Vec<u8>,
    path: &[u8],
    query: Option<&[u8]>,
    headers: Headers,
    body: Vec<u8>,
) -> (r: Result<RequestAction, ProxyError>)
    requires
        headers.wf(),
    ensures
        !is_forwarded(path@) ==> r == Ok::<RequestAction, ProxyError>(
            RequestAction::RespondEmptyOk,
        ),
        is_forwarded(path@) && !is_utf8(body@) ==> r == Err::<RequestAction, ProxyError>(
            ProxyError::RequestBodyNotUtf8,
        ),
        is_forwarded(path@) && is_utf8(body@) ==> {
            &&& r matches Ok(RequestAction::Forward(p))
            &&& p.uri@ == forward_uri_spec(
                path@,
                match query {
                    Some(q) => Some(q@),
                    None => None,
                },
            )
            &&& p.method@ == method@
            &&& p.body@ == body@
            &&& p.headers.wf()
            &&& lookup(p.headers@, host_key_spec()) == Some(upstream_host_spec())
            &&& forall|k: Seq<u8>|
                k != host_key_spec() ==> #[trigger] lookup(p.headers@, k) == lookup(headers@, k)
        },
{
    if !route(path) {
        return Ok(RequestAction::RespondEmptyOk);
    }
    if !utf8_check(body.as_slice()) {
        return Err(ProxyError::RequestBodyNotUtf8);
    }
    let uri = forward_uri(path, query);
    let mut headers = headers;
    headers.insert(host_key(), upstream_host());
    Ok(RequestAction::Forward(ForwardPlan { method, uri, headers, body }))
}

} // verus!
