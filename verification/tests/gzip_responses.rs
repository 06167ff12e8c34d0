//! Checks of the gzip log-decoding path, with streams produced by the real
//! encoder.

use std::io::Write;

use openai_proxy::errors::ProxyError;
use openai_proxy::headers::Headers;
use openai_proxy::response::process_upstream_response;

fn gzip(data: &[u8]) -> Vec<u8> {
    let mut encoder = libflate::gzip::Encoder::new(Vec::new()).unwrap();
    encoder.write_all(data).unwrap();
    encoder.finish().into_result().unwrap()
}

#[test]
fn gzip_response_logs_decompressed_body_and_keeps_wire_bytes() {
    let text = b"{\"object\":\"list\",\"data\":[1,2,3]}";
    let wire = gzip(text);
    let mut headers = Headers::new();
    headers.insert(b"content-encoding".to_vec(), b"gzip".to_vec());
    headers.insert(b"transfer-encoding".to_vec(), b"chunked".to_vec());
    let processed = process_upstream_response(200, headers, wire.clone()).unwrap();

    // The logged text is the decompressed body.
    assert_eq!(processed.log_text, text.to_vec());
    // The caller still gets the original (compressed) bytes ...
    assert_eq!(processed.response.body, wire);
    // ... framed with their exact count and without transfer-encoding.
    let expected_len = format!("{}", wire.len()).into_bytes();
    assert_eq!(
        processed.response.headers.get(b"content-length".as_slice()),
        Some(&expected_len)
    );
    assert_eq!(processed.response.headers.get(b"transfer-encoding".as_slice()), None);
    // The content-encoding header itself is untouched.
    assert_eq!(
        processed.response.headers.get(b"content-encoding".as_slice()),
        Some(&b"gzip".to_vec())
    );
}

#[test]
fn announced_encoding_with_malformed_stream_is_rejected() {
    let mut headers = Headers::new();
    headers.insert(b"content-encoding".to_vec(), b"gzip".to_vec());
    let r = process_upstream_response(200, headers, b"not a gzip stream".to_vec());
    assert!(matches!(r, Err(ProxyError::ResponseDecodeFailed)));
}

#[test]
fn gzip_of_non_utf8_payload_is_rejected() {
    let wire = gzip(&[0xff, 0xfe, 0x80]);
    let mut headers = Headers::new();
    headers.insert(b"content-encoding".to_vec(), b"gzip".to_vec());
    let r = process_upstream_response(200, headers, wire);
    assert!(matches!(r, Err(ProxyError::ResponseBodyNotUtf8)));
}

#[test]
fn empty_gzip_payload_round_trips() {
    let wire = gzip(b"");
    let mut headers = Headers::new();
    headers.insert(b"content-encoding".to_vec(), b"gzip".to_vec());
    let processed = process_upstream_response(204, headers, wire.clone()).unwrap();
    assert_eq!(processed.log_text, Vec::<u8>::new());
    assert_eq!(processed.response.status, 204);
    assert_eq!(processed.response.body, wire);
}
