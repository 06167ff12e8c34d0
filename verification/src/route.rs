//! The router: only paths under the fixed prefix `/openai/` enter the
//! forwarding pipeline; every other path is answered with an empty `200`.

use vstd::prelude::*;
use crate::bytes::{starts_with, slice_starts_with};

verus! {

/// The fixed accepted path prefix, `/openai/`.
pub open spec fn route_prefix_spec() -> Seq<u8> {
    seq![47, 111, 112, 101, 110, 97, 105, 47]
}

/// Does a request with this path enter the forwarding pipeline?
pub open spec fn is_forwarded(path: Seq<u8>) -> bool {
    starts_with(path, route_prefix_spec())
}

/// The fixed accepted path prefix, `/openai/`, as bytes.
pub fn route_prefix() -> (r: Vec<u8>)
    ensures
        r@ == route_prefix_spec(),
{
    let mut r: Vec<u8> = Vec::new();
    r.push(47);
    r.push(111);
    r.push(112);
    r.push(101);
    r.push(110);
    r.push(97);
    r.push(105);
    r.push(47);
    assert(r@ =~= route_prefix_spec());
    r
}

/// The routing decision for one inbound path.
pub fn route(path: &[u8]) -> (r: bool)
    ensures
        r == is_forwarded(path@),
{
    let prefix = route_prefix();
    slice_starts_with(path, prefix.as_slice())
}

} // verus!
