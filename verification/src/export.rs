//! Image export: the widget's surface contents travel as an embedded-image
//! string — the PNG MIME prefix followed by a base64 payload. The host's
//! serializer produces such a string; this module states its shape, builds
//! one from raw bytes, and recovers raw bytes from one, with the round trip
//! proved.

use vstd::prelude::*;
use crate::base64::base64_decode;
use crate::base64::base64_encode;
use crate::base64::lemma_base64_round_trip;
use crate::base64::spec_base64_decode;
use crate::base64::spec_base64_encode;
use crate::error::SigError;
use crate::text::str_eq;

verus! {

/// The embedded-image string for raw PNG bytes `b`.
pub open spec fn spec_data_url(b: Seq<u8>) -> Seq<char> {
    "data:image/png;base64,"@ + spec_base64_encode(b)
}

/// The raw PNG bytes an embedded-image string carries: the payload after
/// the PNG MIME prefix, base64-decoded. `None` when the prefix is missing
/// or the payload is not well-formed base64.
pub open spec fn spec_png_bytes(s: Seq<char>) -> Option<Seq<u8>> {
    let p = "data:image/png;base64,"@;
    if p.len() <= s.len() && s.subrange(0, p.len() as int) == p {
        spec_base64_decode(s.skip(p.len() as int))
    } else {
        None
    }
}

/// Whether the embedded-image prefix of `s` is present.
pub open spec fn spec_has_png_prefix(s: Seq<char>) -> bool {
    let p = "data:image/png;base64,"@;
    p.len() <= s.len() && s.subrange(0, p.len() as int) == p
}

/// The embedded-image string for raw PNG bytes, usable directly as an image
/// source.
pub fn png_data_url(bytes: &Vec<u8>) -> (r: String)
    ensures
        r@ == spec_data_url(bytes@),
{
    let mut s = String::from_str("data:image/png;base64,");
    let enc = base64_encode(bytes);
    s.append(enc.as_str());
    s
}

/// The raw PNG bytes carried by an embedded-image string. Fails when the
/// string does not start with the PNG MIME prefix, or when its payload does
/// not decode as base64.
pub fn to_png_bytes(data_url: &str) -> (r: Result<Vec<u8>, SigError>)
    ensures
        r matches Ok(b) ==> spec_png_bytes(data_url@) == Some(b@),
        r is Err ==> spec_png_bytes(data_url@) is None,
        r matches Err(e) ==> e matches SigError::OpFailed(m) && m@ == (
        if spec_has_png_prefix(data_url@) {
            "base64 decode"@
        } else {
            "unexpected data URL"@
        }),
{
    let n = data_url.unicode_len();
    let prefix = "data:image/png;base64,";
    let plen = prefix.unicode_len();
    if n < plen {
        return Err(SigError::OpFailed(String::from_str("unexpected data URL")));
    }
    let head = data_url.substring_char(0, plen);
    if !str_eq(head, prefix) {
        return Err(SigError::OpFailed(String::from_str("unexpected data URL")));
    }
    let payload = data_url.substring_char(plen, n);
    proof {
        assert(payload@ =~= data_url@.skip(plen as int));
    }
    match base64_decode(payload) {
        Some(v) => Ok(v),
        None => Err(SigError::OpFailed(String::from_str("base64 decode"))),
    }
}

/// Decoding an exported embedded-image string gives the exported bytes
/// back; for a non-empty surface serialization the payload decodes to that
/// same non-empty byte sequence.
pub proof fn lemma_export_round_trip(b: Seq<u8>)
    ensures
        spec_png_bytes(spec_data_url(b)) == Some(b),
        b.len() > 0 ==> spec_png_bytes(spec_data_url(b)).unwrap().len() > 0,
{
    let p = "data:image/png;base64,"@;
    let s = spec_data_url(b);
    assert(s.subrange(0, p.len() as int) =~= p);
    assert(s.skip(p.len() as int) =~= spec_base64_encode(b));
    lemma_base64_round_trip(b);
}

} // verus!
