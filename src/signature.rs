//! Checking a token's signature against a P-256 trust anchor.
use vstd::prelude::*;
use vstd::slice::slice_to_vec;
use crate::primitives::{
    base64url_decoded, decode_base64url, der_signature_raw, der_signature_to_raw, p256_signature_holds,
    p256_verify, public_key_accepted, public_key_ok, raw_signature_accepted, raw_signature_ok,
};

verus! {

/// The length of a signature in its fixed-size form: `r` then `s`, 32 bytes each.
pub const RAW_SIGNATURE_LEN: usize = 64;

/// Why a signature was not accepted.
#[derive(Clone, Copy, Debug, PartialEq, Eq, Structural)]
pub enum SignatureError {
    InvalidSignatureEncoding,
    InvalidSignatureFormat,
    InvalidPublicKey,
    SignatureInvalid,
}

/// The fixed-size form of a decoded signature: the bytes themselves where they are
/// an accepted fixed-size signature, else what DER parsing makes of them.
pub open spec fn raw_form(sig: Seq<u8>) -> Option<Seq<u8>> {
    if sig.len() == RAW_SIGNATURE_LEN && raw_signature_accepted(sig) {
        Some(sig)
    } else {
        der_signature_raw(sig)
    }
}

/// The verdict on a signature segment over the signed bytes, under a SubjectPublicKeyInfo
/// DER key.
pub open spec fn signature_verdict(signing_input: Seq<u8>, segment: Seq<u8>, key_der: Seq<u8>) -> Result<
    (),
    SignatureError,
> {
    match base64url_decoded(segment) {
        None => Err(SignatureError::InvalidSignatureEncoding),
        Some(sig) => match raw_form(sig) {
            None => Err(SignatureError::InvalidSignatureFormat),
            Some(raw) => if !public_key_accepted(key_der) {
                Err(SignatureError::InvalidPublicKey)
            } else if p256_signature_holds(key_der, signing_input, raw) {
                Ok(())
            } else {
                Err(SignatureError::SignatureInvalid)
            },
        },
    }
}

/// Reads a decoded signature in either of its forms: the fixed-size form where the
/// length fits and p256 accepts it, else DER.
pub fn signature_to_raw(sig: &[u8]) -> (r: Option<Vec<u8>>)
    ensures
        raw_form(sig@) == match r {
            Some(v) => Some(v@),
            None => None,
        },
{
    if sig.len() == RAW_SIGNATURE_LEN && raw_signature_ok(sig) {
        Some(slice_to_vec(sig))
    } else {
        der_signature_to_raw(sig)
    }
}

/// Verifies the signature segment of a token over `signing_input` with the key given
/// as SubjectPublicKeyInfo DER. The segment is URL-safe base64 without padding; the
/// bytes it holds are a fixed-size or a DER signature. The signed bytes are checked
/// as they are.
pub fn verify_signature(signing_input: &[u8], signature_segment: &[u8], public_key_der: &[u8]) -> (r:
    Result<(), SignatureError>)
    ensures
        r == signature_verdict(signing_input@, signature_segment@, public_key_der@),
{
    let sig = match decode_base64url(signature_segment) {
        Some(s) => s,
        None => return Err(SignatureError::InvalidSignatureEncoding),
    };
    let raw = match signature_to_raw(sig.as_slice()) {
        Some(r) => r,
        None => return Err(SignatureError::InvalidSignatureFormat),
    };
    if !public_key_ok(public_key_der) {
        return Err(SignatureError::InvalidPublicKey);
    }
    if p256_verify(public_key_der, signing_input, raw.as_slice()) {
        Ok(())
    } else {
        Err(SignatureError::SignatureInvalid)
    }
}

} // verus!
