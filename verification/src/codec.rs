//! Trusted bridges to the byte codecs the pipeline needs: gzip decoding
//! (libflate) and UTF-8 validation (std). Both are pure functions of the
//! input bytes; their results are named rather than written out.

use vstd::prelude::*;

verus! {

/// What decoding `b` as a gzip stream yields: the decompressed bytes, or
/// `None` when `b` is not a well-formed gzip stream.
pub uninterp spec fn gunzip_of(b: Seq<u8>) -> Option<Seq<u8>>;

/// Whether `b` is valid UTF-8.
pub uninterp spec fn is_utf8(b: Seq<u8>) -> bool;

/// Relies on libflate's `gzip::Decoder` (header parse in `new`, inflation in
/// `read_to_end`): decoding a gzip byte stream is a function of the bytes
/// alone, and returns an error exactly when the stream is malformed.
#[verifier::external_body]
pub(crate) fn gunzip(b: &[u8]) -> (r: Option<Vec<u8>>)
    ensures
        (r is Some) == (gunzip_of(b@) is Some),
        r matches Some(d) ==> gunzip_of(b@) == Some(d@),
{
    let mut decoder = match libflate::gzip::Decoder::new(b) {
        Ok(d) => d,
        Err(_) => return None,
    };
    let mut out = Vec::new();
    match std::io::Read::read_to_end(&mut decoder, &mut out) {
        Ok(_) => Some(out),
        Err(_) => None,
    }
}

/// Relies on `core::str::from_utf8`, which returns `Ok` exactly when the
/// bytes are valid UTF-8.
#[verifier::external_body]
pub(crate) fn utf8_check(b: &[u8]) -> (r: bool)
    ensures
        r == is_utf8(b@),
{
    core::str::from_utf8(b).is_ok()
}

} // verus!
