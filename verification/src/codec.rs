//! Header-driven body compression: a registry of content-coding algorithms
//! keyed by the literal token of the `Content-Encoding` header. The set is
//! currently {gzip}. The codec never invents a header and never inspects
//! body bytes to guess an encoding: an absent header means the body passes
//! through unchanged, and an unknown token is a hard error, never a silent
//! passthrough.

use vstd::prelude::*;

use crate::error::DecodeReason;

verus! {

/// The gzip bytes that flate2's whole-buffer encoder produces for the given
/// input, at the default compression level. flate2 writes a reproducible
/// header (zero timestamp, unknown-OS byte), so this is a function of the
/// input bytes alone.
pub uninterp spec fn gzip_of(b: Seq<u8>) -> Seq<u8>;

/// What flate2's whole-buffer gzip decoder yields for the given input:
/// `Some` of the decompressed bytes, or `None` when the input is not a
/// well-formed gzip stream. A function of the input bytes alone.
pub uninterp spec fn gunzip_of(b: Seq<u8>) -> Option<Seq<u8>>;

/// Relies on flate2's `write::GzEncoder` over a `Vec<u8>` at the default
/// level: it gzip-frames (RFC 1952) the whole buffer, its output depends
/// on the input bytes alone, and flate2's own decoder inverts it. Writing
/// into a `Vec` cannot fail, so the encoder's I/O results are always `Ok`.
#[verifier::external_body]
fn gzip_compress(b: &Vec<u8>) -> (r: Vec<u8>)
    ensures
        r@ == gzip_of(b@),
        gunzip_of(r@) == Some(b@),
{
    let mut enc = flate2::write::GzEncoder::new(Vec::new(), flate2::Compression::default());
    std::io::Write::write_all(&mut enc, b.as_slice()).expect("writing into a Vec cannot fail");
    enc.finish().expect("writing into a Vec cannot fail")
}

/// Relies on flate2's `read::GzDecoder` read to the end of a byte slice:
/// it yields the decompressed bytes of a well-formed gzip stream and an
/// error otherwise, and its outcome depends on the input bytes alone.
#[verifier::external_body]
fn gzip_decompress(b: &Vec<u8>) -> (r: Result<Vec<u8>, ()>)
    ensures
        r is Ok <==> gunzip_of(b@) is Some,
        r matches Ok(d) ==> gunzip_of(b@) == Some(d@),
{
    let mut dec = flate2::read::GzDecoder::new(b.as_slice());
    let mut out = Vec::new();
    match std::io::Read::read_to_end(&mut dec, &mut out) {
        Ok(_) => Ok(out),
        Err(_) => Err(()),
    }
}

/// The content-coding token `gzip`, as bytes.
pub open spec fn gzip_token() -> Seq<u8> {
    seq![103u8, 122u8, 105u8, 112u8]
}

/// The supported content-coding algorithms, keyed by their tokens.
#[derive(Clone, Copy, Debug, PartialEq, Eq, Structural)]
pub enum Encoding {
    Gzip,
}

/// How a declared `Content-Encoding` header resolves: no header means no
/// transform, a supported token selects its algorithm, and any other token
/// is rejected.
pub open spec fn spec_parse_encoding(enc: Option<Seq<u8>>) -> Result<Option<Encoding>, DecodeReason> {
    match enc {
        None => Ok(None),
        Some(t) => if t == gzip_token() {
            Ok(Some(Encoding::Gzip))
        } else {
            Err(DecodeReason::UnsupportedEncoding)
        },
    }
}

/// The view of an optional borrowed byte vector.
pub open spec fn opt_bytes_view(o: Option<&Vec<u8>>) -> Option<Seq<u8>> {
    match o {
        Some(v) => Some(v@),
        None => None,
    }
}

/// Reports whether a token is the gzip content-coding token.
pub fn is_gzip_token(t: &Vec<u8>) -> (r: bool)
    ensures
        r == (t@ == gzip_token()),
{
    if t.len() != 4 {
        proof {
            assert(t@ != gzip_token());
        }
        return false;
    }
    let r = t[0] == 103 && t[1] == 122 && t[2] == 105 && t[3] == 112;
    proof {
        if r {
            assert(t@ =~= gzip_token());
        } else {
            assert(t@ != gzip_token());
        }
    }
    r
}

/// Resolves a declared `Content-Encoding` value against the registry of
/// supported algorithms.
pub fn parse_encoding(enc: Option<&Vec<u8>>) -> (r: Result<Option<Encoding>, DecodeReason>)
    ensures
        r == spec_parse_encoding(opt_bytes_view(enc)),
{
    match enc {
        None => Ok(None),
        Some(t) => {
            if is_gzip_token(t) {
                Ok(Some(Encoding::Gzip))
            } else {
                Err(DecodeReason::UnsupportedEncoding)
            }
        },
    }
}

/// What encoding a request body: no declared encoding passes the body
/// through byte-for-byte; `gzip` compresses it; any other token fails.
pub open spec fn spec_encode(body: Seq<u8>, enc: Option<Seq<u8>>) -> Result<Seq<u8>, DecodeReason> {
    match spec_parse_encoding(enc) {
        Ok(None) => Ok(body),
        Ok(Some(Encoding::Gzip)) => Ok(gzip_of(body)),
        Err(e) => Err(e),
    }
}

/// What decoding a response body yields: no received encoding passes the
/// body through byte-for-byte; `gzip` decompresses it, failing on a
/// corrupt stream; any other token fails rather than forwarding bytes
/// that a caller would misread as plaintext.
pub open spec fn spec_decode(body: Seq<u8>, enc: Option<Seq<u8>>) -> Result<Seq<u8>, DecodeReason> {
    match spec_parse_encoding(enc) {
        Ok(None) => Ok(body),
        Ok(Some(Encoding::Gzip)) => match gunzip_of(body) {
            Some(d) => Ok(d),
            None => Err(DecodeReason::CorruptStream),
        },
        Err(e) => Err(e),
    }
}

/// Transforms an outgoing body per the caller's declared content-encoding.
/// The round-trip clause states that a gzip-encoded body decodes back to
/// the original bytes under the same declared encoding.
pub fn encode_request(body: Vec<u8>, declared: Option<&Vec<u8>>) -> (r: Result<Vec<u8>, DecodeReason>)
    ensures
        r matches Ok(out) ==> spec_encode(body@, opt_bytes_view(declared)) == Ok::<Seq<u8>, DecodeReason>(out@),
        r matches Err(e) ==> spec_encode(body@, opt_bytes_view(declared)) == Err::<Seq<u8>, DecodeReason>(e),
        r matches Ok(out) ==> spec_decode(out@, opt_bytes_view(declared)) == Ok::<Seq<u8>, DecodeReason>(body@),
{
    match parse_encoding(declared) {
        Ok(None) => Ok(body),
        Ok(Some(Encoding::Gzip)) => Ok(gzip_compress(&body)),
        Err(e) => Err(e),
    }
}

/// Transforms an incoming body per the received content-encoding.
pub fn decode_response(body: Vec<u8>, received: Option<&Vec<u8>>) -> (r: Result<Vec<u8>, DecodeReason>)
    ensures
        r matches Ok(out) ==> spec_decode(body@, opt_bytes_view(received)) == Ok::<Seq<u8>, DecodeReason>(out@),
        r matches Err(e) ==> spec_decode(body@, opt_bytes_view(received)) == Err::<Seq<u8>, DecodeReason>(e),
        r is Ok <==> spec_decode(body@, opt_bytes_view(received)) is Ok,
{
    match parse_encoding(received) {
        Ok(None) => Ok(body),
        Ok(Some(Encoding::Gzip)) => match gzip_decompress(&body) {
            Ok(d) => Ok(d),
            Err(_) => Err(DecodeReason::CorruptStream),
        },
        Err(e) => Err(e),
    }
}

/// Identity law: with no received content-encoding, decoding returns the
/// body unchanged, byte-for-byte.
pub proof fn lemma_decode_identity(body: Seq<u8>)
    ensures
        spec_decode(body, None) == Ok::<Seq<u8>, DecodeReason>(body),
{
}

/// Passthrough law for requests: with no declared content-encoding, the
/// encoded body is the original, byte-for-byte.
pub proof fn lemma_encode_identity(body: Seq<u8>)
    ensures
        spec_encode(body, None) == Ok::<Seq<u8>, DecodeReason>(body),
{
}

} // verus!
