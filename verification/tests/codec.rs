use subgraph_http::codec::decode_response;
use subgraph_http::codec::encode_request;
use subgraph_http::codec::parse_encoding;
use subgraph_http::codec::Encoding;
use subgraph_http::error::DecodeReason;

fn gzip_with_flate2(data: &[u8]) -> Vec<u8> {
    let mut enc = flate2::write::GzEncoder::new(Vec::new(), flate2::Compression::default());
    std::io::Write::write_all(&mut enc, data).unwrap();
    enc.finish().unwrap()
}

#[test]
fn gzip_round_trip_query_body() {
    let body = br#"{"query":"{ me { name username } }"#.to_vec();
    let token = b"gzip".to_vec();
    let encoded = encode_request(body.clone(), Some(&token)).unwrap();
    let decoded = decode_response(encoded, Some(&token)).unwrap();
    assert_eq!(decoded, body);
}

#[test]
fn gzip_round_trip_empty_body() {
    let token = b"gzip".to_vec();
    let encoded = encode_request(Vec::new(), Some(&token)).unwrap();
    let decoded = decode_response(encoded, Some(&token)).unwrap();
    assert_eq!(decoded, Vec::<u8>::new());
}

#[test]
fn encode_produces_gzip_framing() {
    let body = b"hello subgraph".to_vec();
    let token = b"gzip".to_vec();
    let encoded = encode_request(body.clone(), Some(&token)).unwrap();
    assert_ne!(encoded, body);
    assert_eq!(encoded[0], 0x1f);
    assert_eq!(encoded[1], 0x8b);
}

#[test]
fn encode_matches_wire_gzip() {
    let body = br#"{"query":"{ me { name username } }"#.to_vec();
    let token = b"gzip".to_vec();
    let encoded = encode_request(body.clone(), Some(&token)).unwrap();
    assert_eq!(encoded, gzip_with_flate2(&body));
}

#[test]
fn decode_peer_compressed_response() {
    let payload = br#"{"data":"test"}"#.to_vec();
    let compressed = gzip_with_flate2(&payload);
    let token = b"gzip".to_vec();
    let decoded = decode_response(compressed, Some(&token)).unwrap();
    assert_eq!(decoded, payload);
}

#[test]
fn decode_identity_without_header() {
    let body = br#"{"data": null}"#.to_vec();
    let decoded = decode_response(body.clone(), None).unwrap();
    assert_eq!(decoded, body);
}

#[test]
fn encode_identity_without_header() {
    let body = br#"{"data": null}"#.to_vec();
    let encoded = encode_request(body.clone(), None).unwrap();
    assert_eq!(encoded, body);
}

#[test]
fn encode_rejects_unsupported_encoding() {
    let token = b"br".to_vec();
    let r = encode_request(b"abc".to_vec(), Some(&token));
    assert_eq!(r.unwrap_err(), DecodeReason::UnsupportedEncoding);
}

#[test]
fn decode_rejects_unsupported_encoding() {
    let token = b"deflate".to_vec();
    let r = decode_response(b"abc".to_vec(), Some(&token));
    assert_eq!(r.unwrap_err(), DecodeReason::UnsupportedEncoding);
}

#[test]
fn decode_rejects_corrupt_gzip_stream() {
    let token = b"gzip".to_vec();
    let r = decode_response(b"definitely not a gzip stream".to_vec(), Some(&token));
    assert_eq!(r.unwrap_err(), DecodeReason::CorruptStream);
}

#[test]
fn decode_rejects_truncated_gzip_stream() {
    let payload = br#"{"data":"test"}"#.to_vec();
    let mut compressed = gzip_with_flate2(&payload);
    compressed.truncate(compressed.len() - 4);
    let token = b"gzip".to_vec();
    let r = decode_response(compressed, Some(&token));
    assert_eq!(r.unwrap_err(), DecodeReason::CorruptStream);
}

#[test]
fn parse_encoding_registry() {
    assert_eq!(parse_encoding(None), Ok(None));
    let gz = b"gzip".to_vec();
    assert_eq!(parse_encoding(Some(&gz)), Ok(Some(Encoding::Gzip)));
    let upper = b"GZIP".to_vec();
    assert_eq!(parse_encoding(Some(&upper)), Err(DecodeReason::UnsupportedEncoding));
    let br = b"br".to_vec();
    assert_eq!(parse_encoding(Some(&br)), Err(DecodeReason::UnsupportedEncoding));
}
