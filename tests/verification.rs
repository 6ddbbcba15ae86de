use base64::engine::general_purpose::URL_SAFE_NO_PAD;
use base64::Engine;
use license_verifier::claims::decode_claims;
use license_verifier::signature::{signature_to_raw, verify_signature, SignatureError};
use license_verifier::time::Timestamp;
use license_verifier::token::{decode, DecodeError};
use license_verifier::validate::{check_binding, machine_of_fingerprint, validate, ValidationError, VerificationContext};
use license_verifier::verify::{embedded_public_key, verify_license, verify_token, Failure, VerificationOutcome};
use p256::ecdsa::signature::Signer;
use p256::ecdsa::{Signature, SigningKey};
use p256::pkcs8::EncodePublicKey;

// 2030-01-01T00:00:00Z
const EXPIRY_SECONDS: i64 = 1893456000;
const EXPIRY: &str = "2030-01-01T00:00:00Z";

fn signing_key(seed: u8) -> SigningKey {
    SigningKey::from_slice(&[seed; 32]).unwrap()
}

fn public_key_der(key: &SigningKey) -> Vec<u8> {
    key.verifying_key().to_public_key_der().unwrap().as_bytes().to_vec()
}

fn payload_json(machine: Option<&str>) -> String {
    match machine {
        Some(m) => format!(
            "{{\"customerName\":\"Acme\",\"type\":\"enterprise\",\"maxProductLines\":3,\"maxUsers\":25,\"expiresAt\":\"{}\",\"machineId\":\"{}\"}}",
            EXPIRY, m
        ),
        None => format!(
            "{{\"customerName\":\"Acme\",\"type\":\"enterprise\",\"maxProductLines\":3,\"maxUsers\":25,\"expiresAt\":\"{}\"}}",
            EXPIRY
        ),
    }
}

fn header_segment() -> String {
    URL_SAFE_NO_PAD.encode(b"{\"alg\":\"ES256\",\"typ\":\"JWT\"}")
}

fn signed_input(payload: &str) -> String {
    format!("{}.{}", header_segment(), URL_SAFE_NO_PAD.encode(payload.as_bytes()))
}

fn sign(key: &SigningKey, input: &str) -> Signature {
    key.sign(input.as_bytes())
}

fn token_with_raw(key: &SigningKey, payload: &str) -> String {
    let input = signed_input(payload);
    let sig = sign(key, &input);
    format!("{}.{}", input, URL_SAFE_NO_PAD.encode(sig.to_bytes()))
}

fn token_with_der(key: &SigningKey, payload: &str) -> String {
    let input = signed_input(payload);
    let sig = sign(key, &input);
    format!("{}.{}", input, URL_SAFE_NO_PAD.encode(sig.to_der().as_bytes()))
}

fn context_at(seconds: i64, fingerprint: Option<&str>) -> VerificationContext {
    VerificationContext { now: Timestamp::from_seconds(seconds), fingerprint: fingerprint.map(|f| f.to_string()) }
}

fn error_of(outcome: &VerificationOutcome) -> &Failure {
    outcome.error.as_ref().unwrap()
}

#[test]
fn two_segments_are_malformed() {
    let key = public_key_der(&signing_key(7));
    let outcome = verify_token("abc.def", &key, &context_at(0, None));
    assert!(!outcome.valid);
    assert!(outcome.claims.is_none());
    assert!(matches!(error_of(&outcome), Failure::MalformedToken));
}

#[test]
fn four_segments_are_malformed() {
    let key = signing_key(7);
    let token = format!("{}.extra", token_with_raw(&key, &payload_json(None)));
    let outcome = verify_token(&token, &public_key_der(&key), &context_at(0, None));
    assert!(matches!(error_of(&outcome), Failure::MalformedToken));
    assert!(outcome.claims.is_none());
}

#[test]
fn empty_token_and_empty_segments_are_malformed() {
    let key = public_key_der(&signing_key(7));
    for token in ["", "a..c", ".b.c", "a.b.", ".."] {
        let outcome = verify_token(token, &key, &context_at(0, None));
        assert!(matches!(error_of(&outcome), Failure::MalformedToken), "{}", token);
        assert!(outcome.claims.is_none());
    }
}

#[test]
fn payload_not_base64url_is_invalid_encoding() {
    let key = public_key_der(&signing_key(7));
    let outcome = verify_token("aGVhZA.!!not*base64.c2ln", &key, &context_at(0, None));
    assert!(!outcome.valid);
    assert!(matches!(error_of(&outcome), Failure::InvalidEncoding));
    assert!(outcome.claims.is_none());
}

#[test]
fn payload_not_json_is_invalid_claims() {
    let key = public_key_der(&signing_key(7));
    let token = format!("aGVhZA.{}.c2ln", URL_SAFE_NO_PAD.encode(b"not json"));
    let outcome = verify_token(&token, &key, &context_at(0, None));
    assert!(matches!(error_of(&outcome), Failure::InvalidClaims));
}

#[test]
fn claims_with_missing_or_mistyped_members_are_rejected() {
    assert!(decode_claims(b"{\"customerName\":\"Acme\",\"type\":\"x\"}").is_none());
    assert!(decode_claims(b"{\"customerName\":1,\"type\":\"x\",\"expiresAt\":\"e\"}").is_none());
    assert!(decode_claims(b"{\"customerName\":\"a\",\"type\":\"x\",\"expiresAt\":\"e\",\"maxUsers\":-1}").is_none());
    assert!(decode_claims(b"{\"customerName\":\"a\",\"type\":\"x\",\"expiresAt\":\"e\",\"maxUsers\":4294967296}").is_none());
    assert!(decode_claims(b"{\"customerName\":\"a\",\"type\":\"x\",\"expiresAt\":\"e\",\"maxProductLines\":null}").is_none());
    assert!(decode_claims(b"{\"customerName\":\"a\",\"type\":\"x\",\"expiresAt\":\"e\",\"machineId\":7}").is_none());
    assert!(decode_claims(b"[\"a\",\"x\"]").is_none());
}

#[test]
fn optional_claims_default() {
    let c = decode_claims(b"{\"customerName\":\"a\",\"type\":\"x\",\"expiresAt\":\"e\",\"maxUsers\":null}").unwrap();
    assert_eq!(c.customer_name, "a");
    assert_eq!(c.license_type, "x");
    assert_eq!(c.expires_at, "e");
    assert_eq!(c.max_product_lines, 0);
    assert_eq!(c.max_users, None);
    assert_eq!(c.machine_id, None);
    let c = decode_claims(b"{\"customerName\":\"a\",\"type\":\"x\",\"expiresAt\":\"e\",\"maxUsers\":4294967295,\"maxProductLines\":9,\"machineId\":\"M\"}").unwrap();
    assert_eq!(c.max_users, Some(4294967295));
    assert_eq!(c.max_product_lines, 9);
    assert_eq!(c.machine_id.as_deref(), Some("M"));
}

#[test]
fn decode_gives_segments_and_claims() {
    let key = signing_key(7);
    let payload = payload_json(None);
    let token = token_with_raw(&key, &payload);
    let d = decode(token.as_bytes()).ok().unwrap();
    assert_eq!(d.signing_input, signed_input(&payload).as_bytes());
    assert_eq!(d.payload, payload.as_bytes());
    assert_eq!(d.claims.customer_name, "Acme");
    assert_eq!(d.claims.max_users, Some(25));
    assert!(matches!(decode(b"a.b").err(), Some(DecodeError::MalformedToken)));
}

#[test]
fn unexpired_token_is_valid() {
    let key = signing_key(7);
    let token = token_with_raw(&key, &payload_json(None));
    let outcome = verify_token(&token, &public_key_der(&key), &context_at(EXPIRY_SECONDS - 3600, None));
    assert!(outcome.valid);
    assert!(outcome.error.is_none());
    let claims = outcome.claims.unwrap();
    assert_eq!(claims.customer_name, "Acme");
    assert_eq!(claims.license_type, "enterprise");
    assert_eq!(claims.max_product_lines, 3);
    assert_eq!(claims.max_users, Some(25));
    assert_eq!(claims.expires_at, EXPIRY);
}

#[test]
fn expired_one_second_ago_discloses_claims() {
    let key = signing_key(7);
    let token = token_with_raw(&key, &payload_json(None));
    let outcome = verify_token(&token, &public_key_der(&key), &context_at(EXPIRY_SECONDS + 1, None));
    assert!(!outcome.valid);
    assert!(matches!(error_of(&outcome), Failure::Expired));
    assert_eq!(outcome.claims.unwrap().customer_name, "Acme");
}

#[test]
fn expiry_instant_itself_is_still_valid() {
    let key = signing_key(7);
    let token = token_with_raw(&key, &payload_json(None));
    let outcome = verify_token(&token, &public_key_der(&key), &context_at(EXPIRY_SECONDS, None));
    assert!(outcome.valid);
    let later = VerificationContext { now: Timestamp { seconds: EXPIRY_SECONDS, nanos: 1 }, fingerprint: None };
    let outcome = verify_token(&token, &public_key_der(&key), &later);
    assert!(matches!(error_of(&outcome), Failure::Expired));
}

#[test]
fn expiry_with_offset_is_read_as_an_instant() {
    let mut claims = decode_claims(payload_json(None).as_bytes()).unwrap();
    claims.expires_at = "2030-01-01T02:00:00+02:00".to_string();
    assert!(validate(&claims, &context_at(EXPIRY_SECONDS, None)).is_ok());
    assert!(matches!(validate(&claims, &context_at(EXPIRY_SECONDS + 1, None)), Err(ValidationError::Expired)));
}

#[test]
fn unparsable_expiry_is_invalid_expiry_format() {
    let key = signing_key(7);
    let payload = "{\"customerName\":\"Acme\",\"type\":\"t\",\"expiresAt\":\"next year\"}";
    let token = token_with_raw(&key, payload);
    let outcome = verify_token(&token, &public_key_der(&key), &context_at(0, None));
    assert!(matches!(error_of(&outcome), Failure::InvalidExpiryFormat));
    assert!(outcome.claims.is_some());
}

#[test]
fn bound_token_on_its_machine_is_valid() {
    let key = signing_key(7);
    let token = token_with_raw(&key, &payload_json(Some("M1")));
    let outcome = verify_token(&token, &public_key_der(&key), &context_at(0, Some("M1|extra-data")));
    assert!(outcome.valid);
    assert_eq!(outcome.claims.unwrap().machine_id.as_deref(), Some("M1"));
}

#[test]
fn bound_token_on_another_machine_is_mismatch() {
    let key = signing_key(7);
    let token = token_with_raw(&key, &payload_json(Some("M1")));
    let outcome = verify_token(&token, &public_key_der(&key), &context_at(0, Some("M2|extra-data")));
    assert!(!outcome.valid);
    match error_of(&outcome) {
        Failure::MachineMismatch { expected, actual } => {
            assert_eq!(expected, "M1");
            assert_eq!(actual, "M2");
        },
        other => panic!("unexpected {:?}", other),
    }
    assert!(outcome.claims.is_some());
}

#[test]
fn bound_token_without_fingerprint_needs_binding() {
    let key = signing_key(7);
    let token = token_with_raw(&key, &payload_json(Some("M1")));
    let outcome = verify_token(&token, &public_key_der(&key), &context_at(0, None));
    assert!(matches!(error_of(&outcome), Failure::MachineBindingRequired));
    assert!(outcome.claims.is_some());
}

#[test]
fn unbound_token_ignores_fingerprint() {
    let key = signing_key(7);
    let token = token_with_raw(&key, &payload_json(None));
    let outcome = verify_token(&token, &public_key_der(&key), &context_at(0, Some("M9|x")));
    assert!(outcome.valid);
}

#[test]
fn machine_is_first_field_of_fingerprint() {
    assert_eq!(machine_of_fingerprint("M1|extra-data"), "M1");
    assert_eq!(machine_of_fingerprint("M1"), "M1");
    assert_eq!(machine_of_fingerprint("|rest"), "");
    assert_eq!(machine_of_fingerprint("Ä1|ü"), "Ä1");
    assert!(check_binding(&Some("M1".to_string()), &Some("M1".to_string())).is_ok());
    assert!(check_binding(&Some("M1".to_string()), &Some("M1x|y".to_string())).is_err());
    assert!(check_binding(&None, &None).is_ok());
}

#[test]
fn flipped_signature_bit_is_signature_invalid() {
    let key = signing_key(7);
    let input = signed_input(&payload_json(None));
    let sig = sign(&key, &input).to_bytes().to_vec();
    for bit in [0usize, 7, 100, 255, 300, 511] {
        let mut bad = sig.clone();
        bad[bit / 8] ^= 1 << (bit % 8);
        let token = format!("{}.{}", input, URL_SAFE_NO_PAD.encode(&bad));
        let outcome = verify_token(&token, &public_key_der(&key), &context_at(0, None));
        assert!(matches!(error_of(&outcome), Failure::SignatureInvalid), "bit {}", bit);
        assert!(outcome.claims.is_none());
    }
}

#[test]
fn changed_payload_is_signature_invalid() {
    let key = signing_key(7);
    let token = token_with_raw(&key, &payload_json(None));
    let parts: Vec<&str> = token.split('.').collect();
    let other = URL_SAFE_NO_PAD.encode(payload_json(Some("M1")).as_bytes());
    let forged = format!("{}.{}.{}", parts[0], other, parts[2]);
    let outcome = verify_token(&forged, &public_key_der(&key), &context_at(0, Some("M1|x")));
    assert!(matches!(error_of(&outcome), Failure::SignatureInvalid));
    assert!(outcome.claims.is_none());
}

#[test]
fn other_signing_key_is_signature_invalid() {
    let token = token_with_raw(&signing_key(9), &payload_json(None));
    let outcome = verify_token(&token, &public_key_der(&signing_key(7)), &context_at(0, None));
    assert!(matches!(error_of(&outcome), Failure::SignatureInvalid));
    assert!(outcome.claims.is_none());
}

#[test]
fn same_inputs_give_same_outcome() {
    let key = signing_key(7);
    let token = token_with_raw(&key, &payload_json(Some("M1")));
    let der = public_key_der(&key);
    for ctx in [context_at(0, Some("M1|a")), context_at(0, Some("M2|a")), context_at(EXPIRY_SECONDS + 5, None)] {
        let first = verify_token(&token, &der, &ctx);
        let second = verify_token(&token, &der, &ctx);
        assert_eq!(format!("{:?}", first), format!("{:?}", second));
    }
}

#[test]
fn raw_and_der_signatures_verify_alike() {
    let key = signing_key(7);
    let payload = payload_json(None);
    let raw_token = token_with_raw(&key, &payload);
    let der_token = token_with_der(&key, &payload);
    let der = public_key_der(&key);
    let a = verify_token(&raw_token, &der, &context_at(0, None));
    let b = verify_token(&der_token, &der, &context_at(0, None));
    assert!(a.valid && b.valid);
    assert_eq!(format!("{:?}", a), format!("{:?}", b));
    let other = public_key_der(&signing_key(9));
    let a = verify_token(&raw_token, &other, &context_at(0, None));
    let b = verify_token(&der_token, &other, &context_at(0, None));
    assert!(matches!(error_of(&a), Failure::SignatureInvalid));
    assert!(matches!(error_of(&b), Failure::SignatureInvalid));
}

#[test]
fn der_signature_is_read_into_raw_form() {
    let key = signing_key(7);
    let sig = sign(&key, "message");
    let der = sig.to_der().as_bytes().to_vec();
    assert_eq!(signature_to_raw(&der).unwrap(), sig.to_bytes().to_vec());
    assert_eq!(signature_to_raw(&sig.to_bytes()).unwrap(), sig.to_bytes().to_vec());
    assert!(signature_to_raw(&[0u8; 64]).is_none());
    assert!(signature_to_raw(&[1u8; 10]).is_none());
}

#[test]
fn signature_stage_errors() {
    let key = signing_key(7);
    let der = public_key_der(&key);
    let input = signed_input(&payload_json(None));
    let sig = URL_SAFE_NO_PAD.encode(sign(&key, &input).to_bytes());
    assert_eq!(verify_signature(input.as_bytes(), sig.as_bytes(), &der), Ok(()));
    assert_eq!(verify_signature(input.as_bytes(), b"@@@", &der), Err(SignatureError::InvalidSignatureEncoding));
    let short = URL_SAFE_NO_PAD.encode([3u8; 10]);
    assert_eq!(verify_signature(input.as_bytes(), short.as_bytes(), &der), Err(SignatureError::InvalidSignatureFormat));
    assert_eq!(verify_signature(input.as_bytes(), sig.as_bytes(), &[1, 2, 3]), Err(SignatureError::InvalidPublicKey));
    let trimmed = &input.as_bytes()[..input.len() - 1];
    assert_eq!(verify_signature(trimmed, sig.as_bytes(), &der), Err(SignatureError::SignatureInvalid));
}

#[test]
fn bad_signature_segment_in_token() {
    let key = signing_key(7);
    let input = signed_input(&payload_json(None));
    let outcome = verify_token(&format!("{}.@@@", input), &public_key_der(&key), &context_at(0, None));
    assert!(matches!(error_of(&outcome), Failure::InvalidSignatureEncoding));
    let outcome = verify_token(&format!("{}.AAAA", input), &public_key_der(&key), &context_at(0, None));
    assert!(matches!(error_of(&outcome), Failure::InvalidSignatureFormat));
    let token = token_with_raw(&key, &payload_json(None));
    let outcome = verify_token(&token, b"not a key", &context_at(0, None));
    assert!(matches!(error_of(&outcome), Failure::InvalidPublicKey));
    assert!(outcome.claims.is_none());
}

#[test]
fn embedded_key_is_a_p256_key() {
    let key = embedded_public_key().unwrap();
    assert_eq!(key.len(), 91);
    assert_eq!(&key[..4], &[0x30, 0x59, 0x30, 0x13]);
    let token = token_with_raw(&signing_key(7), &payload_json(None));
    let outcome = verify_license(&token, &context_at(0, None));
    assert!(matches!(error_of(&outcome), Failure::SignatureInvalid));
    let outcome = verify_license("a.b", &context_at(0, None));
    assert!(matches!(error_of(&outcome), Failure::MalformedToken));
}
