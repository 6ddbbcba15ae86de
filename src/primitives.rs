//! The calls this library makes into base64, serde_json, p256 and chrono.
//!
//! Each result that would take pages to describe (a base64 decoding, a JSON
//! parse, an ECDSA check, a date-time parse) is given a name here, and the
//! wrappers state their results in terms of those names.
use vstd::prelude::*;
use base64::Engine;
use p256::ecdsa::signature::Verifier;
use p256::pkcs8::DecodePublicKey;
use crate::claims::{JsonMember, MemberView};
use crate::time::Timestamp;

verus! {

#[verifier::external_type_specification]
#[verifier::external_body]
pub struct ExJsonValue(serde_json::Value);

#[verifier::external_type_specification]
#[verifier::external_body]
#[verifier::reject_recursive_types(K)]
#[verifier::reject_recursive_types(V)]
pub struct ExJsonMap<K, V>(serde_json::Map<K, V>);

/// The bytes that base64's `URL_SAFE_NO_PAD` engine decodes the text into, if it accepts it.
pub uninterp spec fn base64url_decoded(text: Seq<u8>) -> Option<Seq<u8>>;

/// The bytes that base64's `STANDARD` engine decodes the text into, if it accepts it.
pub uninterp spec fn base64_standard_decoded(text: Seq<u8>) -> Option<Seq<u8>>;

/// The members of the JSON object that serde_json reads from the bytes, if they hold one.
pub uninterp spec fn json_object_in(bytes: Seq<u8>) -> Option<Map<Seq<char>, MemberView>>;

/// The members of a serde_json object, keyed by name.
pub uninterp spec fn object_members(m: serde_json::Map<String, serde_json::Value>) -> Map<Seq<char>, MemberView>;

/// Whether p256 accepts the bytes as a fixed-size `r || s` signature.
pub uninterp spec fn raw_signature_accepted(bytes: Seq<u8>) -> bool;

/// The `r || s` form of the signature that p256 reads from DER bytes, if it accepts them.
pub uninterp spec fn der_signature_raw(bytes: Seq<u8>) -> Option<Seq<u8>>;

/// Whether p256 accepts the bytes as a SubjectPublicKeyInfo DER encoding of a P-256 key.
pub uninterp spec fn public_key_accepted(der: Seq<u8>) -> bool;

/// Whether p256's ECDSA/SHA-256 check passes for the key, message and `r || s` signature.
pub uninterp spec fn p256_signature_holds(key_der: Seq<u8>, msg: Seq<u8>, sig: Seq<u8>) -> bool;

/// The instant (seconds since the Unix epoch, then nanoseconds) that chrono reads from an
/// RFC 3339 date-time, if it accepts the text.
pub uninterp spec fn rfc3339_instant(text: Seq<char>) -> Option<(i64, u32)>;

/// The member of a JSON object under a key, `Absent` where there is none.
pub open spec fn member_at(members: Map<Seq<char>, MemberView>, key: Seq<char>) -> MemberView {
    if members.contains_key(key) {
        members[key]
    } else {
        MemberView::Absent
    }
}

/// Relies on base64's `URL_SAFE_NO_PAD.decode`.
#[verifier::external_body]
pub(crate) fn decode_base64url(text: &[u8]) -> (r: Option<Vec<u8>>)
    ensures
        base64url_decoded(text@) == match r {
            Some(v) => Some(v@),
            None => None,
        },
{
    base64::engine::general_purpose::URL_SAFE_NO_PAD.decode(text).ok()
}

/// Relies on base64's `STANDARD.decode`.
#[verifier::external_body]
pub(crate) fn decode_base64_standard(text: &[u8]) -> (r: Option<Vec<u8>>)
    ensures
        base64_standard_decoded(text@) == match r {
            Some(v) => Some(v@),
            None => None,
        },
{
    base64::engine::general_purpose::STANDARD.decode(text).ok()
}

/// Relies on `serde_json::from_slice` into a `serde_json::Value`: `Some` holds the
/// members when the bytes are one JSON object, `None` when they are anything else.
#[verifier::external_body]
pub(crate) fn parse_json_object(bytes: &[u8]) -> (r: Option<serde_json::Map<String, serde_json::Value>>)
    ensures
        json_object_in(bytes@) == match r {
            Some(m) => Some(object_members(m)),
            None => None,
        },
{
    match serde_json::from_slice::<serde_json::Value>(bytes) {
        Ok(serde_json::Value::Object(m)) => Some(m),
        _ => None,
    }
}

/// Relies on serde_json's `Map::get`, then tells the member's kind apart, reading a
/// number through `Number::as_u64`.
#[verifier::external_body]
pub(crate) fn member(m: &serde_json::Map<String, serde_json::Value>, key: &str) -> (r: JsonMember)
    ensures
        r@ == member_at(object_members(*m), key@),
{
    match m.get(key) {
        None => JsonMember::Absent,
        Some(serde_json::Value::Null) => JsonMember::Null,
        Some(serde_json::Value::String(s)) => JsonMember::Str(s.clone()),
        Some(serde_json::Value::Number(n)) => match n.as_u64() {
            Some(u) => JsonMember::UInt(u),
            None => JsonMember::Other,
        },
        Some(_) => JsonMember::Other,
    }
}

/// Relies on p256's `Signature::from_slice`, which takes exactly 64 bytes.
#[verifier::external_body]
pub(crate) fn raw_signature_ok(bytes: &[u8]) -> (r: bool)
    ensures
        r == raw_signature_accepted(bytes@),
        r ==> bytes@.len() == 64,
{
    p256::ecdsa::Signature::from_slice(bytes).is_ok()
}

/// Relies on p256's `Signature::from_der`, and `Signature::to_vec` for its `r || s` form.
#[verifier::external_body]
pub(crate) fn der_signature_to_raw(bytes: &[u8]) -> (r: Option<Vec<u8>>)
    ensures
        der_signature_raw(bytes@) == match r {
            Some(v) => Some(v@),
            None => None,
        },
{
    p256::ecdsa::Signature::from_der(bytes).ok().map(|s| s.to_vec())
}

/// Relies on p256's `VerifyingKey::from_public_key_der`.
#[verifier::external_body]
pub(crate) fn public_key_ok(der: &[u8]) -> (r: bool)
    ensures
        r == public_key_accepted(der@),
{
    p256::ecdsa::VerifyingKey::from_public_key_der(der).is_ok()
}

/// Relies on p256's `Verifier::verify` for `VerifyingKey`, with the key read by
/// `VerifyingKey::from_public_key_der` and the signature by `Signature::from_slice`.
#[verifier::external_body]
pub(crate) fn p256_verify(key_der: &[u8], msg: &[u8], sig: &[u8]) -> (r: bool)
    ensures
        r == p256_signature_holds(key_der@, msg@, sig@),
{
    match (p256::ecdsa::VerifyingKey::from_public_key_der(key_der), p256::ecdsa::Signature::from_slice(sig)) {
        (Ok(k), Ok(s)) => k.verify(msg, &s).is_ok(),
        _ => false,
    }
}

/// Relies on chrono's `DateTime::parse_from_rfc3339`, read back through `timestamp`
/// and `timestamp_subsec_nanos`.
#[verifier::external_body]
pub(crate) fn parse_rfc3339(text: &str) -> (r: Option<Timestamp>)
    ensures
        rfc3339_instant(text@) == match r {
            Some(t) => Some((t.seconds, t.nanos)),
            None => None,
        },
{
    chrono::DateTime::parse_from_rfc3339(text).ok().map(|d| Timestamp { seconds: d.timestamp(), nanos: d.timestamp_subsec_nanos() })
}

} // verus!
