//! The response rewriter: after the upstream body is fully buffered, the
//! body is decoded for logging (gzip when a content encoding is announced),
//! the `transfer-encoding` header is dropped, and `content-length` is set to
//! the exact buffered byte count. Transport failures and per-request
//! processing failures both surface as a bad-gateway response.

use vstd::prelude::*;
use crate::bytes::tail_of;
use crate::codec::{gunzip, gunzip_of, is_utf8, utf8_check};
use crate::decimal::{dec_of, u64_to_decimal};
use crate::errors::ProxyError;
use crate::headers::{Headers, lookup};

verus! {

/// The name of the content-encoding header.
pub open spec fn content_encoding_key_spec() -> Seq<u8> {
    seq![99, 111, 110, 116, 101, 110, 116, 45, 101, 110, 99, 111, 100, 105, 110, 103]
}

/// The name of the transfer-encoding header.
pub open spec fn transfer_encoding_key_spec() -> Seq<u8> {
    seq![116, 114, 97, 110, 115, 102, 101, 114, 45, 101, 110, 99, 111, 100, 105, 110, 103]
}

/// The name of the content-length header.
pub open spec fn content_length_key_spec() -> Seq<u8> {
    seq![99, 111, 110, 116, 101, 110, 116, 45, 108, 101, 110, 103, 116, 104]
}

/// The name of the content-encoding header as bytes.
pub fn content_encoding_key() -> (r: Vec<u8>)
    ensures
        r@ == content_encoding_key_spec(),
{
    let mut r: Vec<u8> = Vec::new();
    r.push(99);
    r.push(111);
    r.push(110);
    r.push(116);
    r.push(101);
    r.push(110);
    r.push(116);
    r.push(45);
    r.push(101);
    r.push(110);
    r.push(99);
    r.push(111);
    r.push(100);
    r.push(105);
    r.push(110);
    r.push(103);
    assert(r@ =~= content_encoding_key_spec());
    r
}

/// The name of the transfer-encoding header as bytes.
pub fn transfer_encoding_key() -> (r: Vec<u8>)
    ensures
        r@ == transfer_encoding_key_spec(),
{
    let mut r: Vec<u8> = Vec::new();
    r.push(116);
    r.push(114);
    r.push(97);
    r.push(110);
    r.push(115);
    r.push(102);
    r.push(101);
    r.push(114);
    r.push(45);
    r.push(101);
    r.push(110);
    r.push(99);
    r.push(111);
    r.push(100);
    r.push(105);
    r.push(110);
    r.push(103);
    assert(r@ =~= transfer_encoding_key_spec());
    r
}

/// The name of the content-length header as bytes.
pub fn content_length_key() -> (r: Vec<u8>)
    ensures
        r@ == content_length_key_spec(),
{
    let mut r: Vec<u8> = Vec::new();
    r.push(99);
    r.push(111);
    r.push(110);
    r.push(116);
    r.push(101);
    r.push(110);
    r.push(116);
    r.push(45);
    r.push(108);
    r.push(101);
    r.push(110);
    r.push(103);
    r.push(116);
    r.push(104);
    assert(r@ =~= content_length_key_spec());
    r
}

/// A fully buffered response as handed back to the original caller.
pub struct HttpResponseData {
    /// The status code.
    pub status: u16,
    /// The response headers.
    pub headers: Headers,
    /// The complete body.
    pub body: Vec<u8>,
}

/// A rewritten upstream response together with the text logged for it.
pub struct ProcessedResponse {
    /// The response to return to the original caller.
    pub response: HttpResponseData,
    /// The logged body: the buffered bytes, decompressed when the upstream
    /// announced a content encoding.
    pub log_text: Vec<u8>,
}

/// The bytes that are logged for a buffered upstream body: the gzip
/// decompression when a content encoding is announced, the bytes themselves
/// otherwise. `None` when the announced decoding fails.
pub open spec fn decoded_for_log(headers: Seq<(Seq<u8>, Seq<u8>)>, body: Seq<u8>) -> Option<
    Seq<u8>,
> {
    if lookup(headers, content_encoding_key_spec()) is Some {
        gunzip_of(body)
    } else {
        Some(body)
    }
}

/// Rewrites one successful upstream response.
///
/// The returned response keeps the upstream status and body bytes unchanged;
/// its headers lose `transfer-encoding` and carry a `content-length` equal
/// to the exact body byte count. The log text is the decoded body, which
/// must be valid UTF-8.
pub fn process_upstream_response(status: u16, headers: Headers, body: Vec<u8>) -> (r: Result<
    ProcessedResponse,
    ProxyError,
>)
    requires
        headers.wf(),
    ensures
        decoded_for_log(headers@, body@) is None ==> r == Err::<ProcessedResponse, ProxyError>(
            ProxyError::ResponseDecodeFailed,
        ),
        decoded_for_log(headers@, body@) matches Some(d) && !is_utf8(d) ==> r == Err::<
            ProcessedResponse,
            ProxyError,
        >(ProxyError::ResponseBodyNotUtf8),
        decoded_for_log(headers@, body@) matches Some(d) ==> is_utf8(d) ==> {
            &&& r matches Ok(p)
            &&& p.log_text@ == d
            &&& p.response.status == status
            &&& p.response.body@ == body@
            &&& p.response.headers.wf()
            &&& lookup(p.response.headers@, transfer_encoding_key_spec()) is None
            &&& lookup(p.response.headers@, content_length_key_spec()) == Some(
                dec_of(body@.len()),
            )
            &&& forall|k: Seq<u8>|
                k != transfer_encoding_key_spec() && k != content_length_key_spec()
                    ==> #[trigger] lookup(p.response.headers@, k) == lookup(headers@, k)
        },
{
    let encoded = headers.contains(content_encoding_key().as_slice());
    let log_text: Vec<u8>;
    if encoded {
        match gunzip(body.as_slice()) {
            Some(d) => {
                log_text = d;
            },
            None => {
                return Err(ProxyError::ResponseDecodeFailed);
            },
        }
    } else {
        log_text = tail_of(body.as_slice(), 0);
        assert(log_text@ =~= body@);
    }
    if !utf8_check(log_text.as_slice()) {
        return Err(ProxyError::ResponseBodyNotUtf8);
    }
    let mut headers = headers;
    headers.remove(transfer_encoding_key().as_slice());
    let len_value = u64_to_decimal(body.len() as u64);
    headers.insert(content_length_key(), len_value);
    proof {
        assert(transfer_encoding_key_spec().len() == 17);
        assert(content_length_key_spec().len() == 14);
        assert(transfer_encoding_key_spec() != content_length_key_spec());
    }
    Ok(ProcessedResponse { response: HttpResponseData { status, headers, body }, log_text })
}

/// The catch-all answer for a path outside the route prefix: an empty `200`.
pub fn pass_through_response() -> (r: HttpResponseData)
    ensures
        r.status == 200,
        r.body@ == Seq::<u8>::empty(),
        r.headers.wf(),
        forall|k: Seq<u8>| #[trigger] lookup(r.headers@, k) is None,
{
    HttpResponseData { status: 200, headers: Headers::new(), body: Vec::new() }
}

/// The deterministic answer for a routed request that failed, whether in
/// transport or in response processing: an empty `502`.
pub fn bad_gateway_response() -> (r: HttpResponseData)
    ensures
        r.status == 502,
        r.body@ == Seq::<u8>::empty(),
        r.headers.wf(),
        forall|k: Seq<u8>| #[trigger] lookup(r.headers@, k) is None,
{
    HttpResponseData { status: 502, headers: Headers::new(), body: Vec::new() }
}

} // verus!
