//! Pipeline-wide laws that span more than one function.

use vstd::prelude::*;
use crate::errors::ProxyError;
use crate::headers::Headers;
use crate::response::{pass_through_response, HttpResponseData};
use crate::rewrite::{plan_request, RequestAction};
use crate::route::is_forwarded;

verus! {

/// Law: a request whose path lies outside the route prefix is answered with
/// an empty `200`, whatever its method, query, headers or body: the only
/// plan the rewriter can produce for it is the pass-through action, and the
/// pass-through response is `200` with an empty body.
pub proof fn lemma_unrouted_always_empty_ok(
    method: Vec<u8>,
    path: &[u8],
    query: Option<&[u8]>,
    headers: Headers,
    body: Vec<u8>,
    plan: Result<RequestAction, ProxyError>,
    resp: HttpResponseData,
)
    requires
        !is_forwarded(path@),
        call_ensures(plan_request, (method, path, query, headers, body), plan),
        call_ensures(pass_through_response, (), resp),
    ensures
        plan == Ok::<RequestAction, ProxyError>(RequestAction::RespondEmptyOk),
        resp.status == 200,
        resp.body@ == Seq::<u8>::empty(),
{
}

} // verus!
