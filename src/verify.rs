//! The whole check of a token: decoding, then the signature, then the claims.
use vstd::prelude::*;
use vstd::string::StringSliceAdditionalSpecFns;
use crate::claims::{Claims, ClaimsView};
use crate::primitives::{base64_standard_decoded, decode_base64_standard};
use crate::signature::{signature_verdict, verify_signature, SignatureError};
use crate::token::{decode, decode_spec, DecodeError};
use crate::validate::{validate, validation_verdict, ContextView, ValidationError, ValidationErrorView, VerificationContext};

verus! {

/// The trust anchor built into the library: a P-256 public key as SubjectPublicKeyInfo
/// DER, in standard base64.
pub const EMBEDDED_PUBLIC_KEY: &'static str = "MFkwEwYHKoZIzj0CAQYIKoZIzj0DAQcDQgAEX9BNislruXoueGcZGYR0jRof5NzsiuiO2hubmiA6JosZUDf1UN4kli5BGBms/pfYoKFA3pT3b5N1sn0+8fE4OQ==";

/// Why a token was rejected.
#[derive(Clone, Debug)]
pub enum Failure {
    /// The token is not three non-empty segments.
    MalformedToken,
    /// The payload segment is not URL-safe base64 without padding.
    InvalidEncoding,
    /// The payload holds no well-typed claims.
    InvalidClaims,
    /// The signature segment is not URL-safe base64 without padding.
    InvalidSignatureEncoding,
    /// The signature bytes are neither a fixed-size nor a DER signature.
    InvalidSignatureFormat,
    /// The trust anchor is not a P-256 public key.
    InvalidPublicKey,
    /// The signature does not hold for the signed bytes under the trust anchor.
    SignatureInvalid,
    /// The expiry is not an RFC 3339 date-time.
    InvalidExpiryFormat,
    /// The time now lies after the expiry.
    Expired,
    /// The claims name a machine and the context has no fingerprint.
    MachineBindingRequired,
    /// The claims name another machine than the fingerprint does.
    MachineMismatch { expected: String, actual: String },
}

pub enum FailureView {
    MalformedToken,
    InvalidEncoding,
    InvalidClaims,
    InvalidSignatureEncoding,
    InvalidSignatureFormat,
    InvalidPublicKey,
    SignatureInvalid,
    InvalidExpiryFormat,
    Expired,
    MachineBindingRequired,
    MachineMismatch { expected: Seq<char>, actual: Seq<char> },
}

impl View for Failure {
    type V = FailureView;

    open spec fn view(&self) -> FailureView {
        match self {
            Failure::MalformedToken => FailureView::MalformedToken,
            Failure::InvalidEncoding => FailureView::InvalidEncoding,
            Failure::InvalidClaims => FailureView::InvalidClaims,
            Failure::InvalidSignatureEncoding => FailureView::InvalidSignatureEncoding,
            Failure::InvalidSignatureFormat => FailureView::InvalidSignatureFormat,
            Failure::InvalidPublicKey => FailureView::InvalidPublicKey,
            Failure::SignatureInvalid => FailureView::SignatureInvalid,
            Failure::InvalidExpiryFormat => FailureView::InvalidExpiryFormat,
            Failure::Expired => FailureView::Expired,
            Failure::MachineBindingRequired => FailureView::MachineBindingRequired,
            Failure::MachineMismatch { expected, actual } => FailureView::MachineMismatch {
                expected: expected@,
                actual: actual@,
            },
        }
    }
}

/// The answer on a token: valid with its claims, or a failure, with the claims where
/// the signature has already been found good.
#[derive(Clone, Debug)]
pub struct VerificationOutcome {
    pub valid: bool,
    pub claims: Option<Claims>,
    pub error: Option<Failure>,
}

pub struct OutcomeView {
    pub valid: bool,
    pub claims: Option<ClaimsView>,
    pub error: Option<FailureView>,
}

impl View for VerificationOutcome {
    type V = OutcomeView;

    open spec fn view(&self) -> OutcomeView {
        OutcomeView {
            valid: self.valid,
            claims: match self.claims {
                Some(c) => Some(c@),
                None => None,
            },
            error: match self.error {
                Some(e) => Some(e@),
                None => None,
            },
        }
    }
}

pub open spec fn accepted(c: ClaimsView) -> OutcomeView {
    OutcomeView { valid: true, claims: Some(c), error: None }
}

pub open spec fn rejected(e: FailureView, claims: Option<ClaimsView>) -> OutcomeView {
    OutcomeView { valid: false, claims, error: Some(e) }
}

pub open spec fn decode_failure(e: DecodeError) -> FailureView {
    match e {
        DecodeError::MalformedToken => FailureView::MalformedToken,
        DecodeError::InvalidEncoding => FailureView::InvalidEncoding,
        DecodeError::InvalidClaims => FailureView::InvalidClaims,
    }
}

pub open spec fn signature_failure(e: SignatureError) -> FailureView {
    match e {
        SignatureError::InvalidSignatureEncoding => FailureView::InvalidSignatureEncoding,
        SignatureError::InvalidSignatureFormat => FailureView::InvalidSignatureFormat,
        SignatureError::InvalidPublicKey => FailureView::InvalidPublicKey,
        SignatureError::SignatureInvalid => FailureView::SignatureInvalid,
    }
}

pub open spec fn validation_failure(e: ValidationErrorView) -> FailureView {
    match e {
        ValidationErrorView::InvalidExpiryFormat => FailureView::InvalidExpiryFormat,
        ValidationErrorView::Expired => FailureView::Expired,
        ValidationErrorView::MachineBindingRequired => FailureView::MachineBindingRequired,
        ValidationErrorView::MachineMismatch { expected, actual } => FailureView::MachineMismatch {
            expected,
            actual,
        },
    }
}

/// The outcome on a token, under a SubjectPublicKeyInfo DER key, in a context: the
/// stages in order, the first failure ending the check, and the claims disclosed only
/// once the signature is good.
pub open spec fn outcome_spec(token: Seq<u8>, key_der: Seq<u8>, ctx: ContextView) -> OutcomeView {
    match decode_spec(token) {
        Err(e) => rejected(decode_failure(e), None),
        Ok((i, j, p, c)) => match signature_verdict(
            token.subrange(0, j),
            token.subrange(j + 1, token.len() as int),
            key_der,
        ) {
            Err(e) => rejected(signature_failure(e), None),
            Ok(()) => match validation_verdict(c, ctx) {
                Ok(()) => accepted(c),
                Err(e) => rejected(validation_failure(e), Some(c)),
            },
        },
    }
}

fn from_decode_error(e: DecodeError) -> (r: Failure)
    ensures
        r@ == decode_failure(e),
{
    match e {
        DecodeError::MalformedToken => Failure::MalformedToken,
        DecodeError::InvalidEncoding => Failure::InvalidEncoding,
        DecodeError::InvalidClaims => Failure::InvalidClaims,
    }
}

fn from_signature_error(e: SignatureError) -> (r: Failure)
    ensures
        r@ == signature_failure(e),
{
    match e {
        SignatureError::InvalidSignatureEncoding => Failure::InvalidSignatureEncoding,
        SignatureError::InvalidSignatureFormat => Failure::InvalidSignatureFormat,
        SignatureError::InvalidPublicKey => Failure::InvalidPublicKey,
        SignatureError::SignatureInvalid => Failure::SignatureInvalid,
    }
}

fn from_validation_error(e: ValidationError) -> (r: Failure)
    ensures
        r@ == validation_failure(e@),
{
    match e {
        ValidationError::InvalidExpiryFormat => Failure::InvalidExpiryFormat,
        ValidationError::Expired => Failure::Expired,
        ValidationError::MachineBindingRequired => Failure::MachineBindingRequired,
        ValidationError::MachineMismatch { expected, actual } => Failure::MachineMismatch { expected, actual },
    }
}

/// Verifies a token against a trust anchor given as SubjectPublicKeyInfo DER, in the
/// caller's context.
pub fn verify_token(token: &str, public_key_der: &[u8], context: &VerificationContext) -> (r: VerificationOutcome)
    ensures
        r@ == outcome_spec(token.spec_bytes(), public_key_der@, context@),
{
    let decoded = match decode(token.as_bytes()) {
        Ok(d) => d,
        Err(e) => return VerificationOutcome { valid: false, claims: None, error: Some(from_decode_error(e)) },
    };
    match verify_signature(decoded.signing_input, decoded.signature_segment, public_key_der) {
        Ok(()) => {},
        Err(e) => return VerificationOutcome { valid: false, claims: None, error: Some(from_signature_error(e)) },
    }
    match validate(&decoded.claims, context) {
        Ok(()) => VerificationOutcome { valid: true, claims: Some(decoded.claims), error: None },
        Err(e) => VerificationOutcome {
            valid: false,
            claims: Some(decoded.claims),
            error: Some(from_validation_error(e)),
        },
    }
}

/// The built-in trust anchor as DER, `None` if its text is not standard base64.
pub fn embedded_public_key() -> (r: Option<Vec<u8>>)
    ensures
        base64_standard_decoded(EMBEDDED_PUBLIC_KEY.spec_bytes()) == match r {
            Some(v) => Some(v@),
            None => None,
        },
{
    decode_base64_standard(EMBEDDED_PUBLIC_KEY.as_bytes())
}

/// Verifies a token against the built-in trust anchor, in the caller's context. If the
/// built-in key's text does not decode, every token is rejected as `InvalidPublicKey`.
pub fn verify_license(token: &str, context: &VerificationContext) -> (r: VerificationOutcome)
    ensures
        r@ == match base64_standard_decoded(EMBEDDED_PUBLIC_KEY.spec_bytes()) {
            Some(key) => outcome_spec(token.spec_bytes(), key, context@),
            None => rejected(FailureView::InvalidPublicKey, None),
        },
{
    match embedded_public_key() {
        Some(key) => verify_token(token, key.as_slice(), context),
        None => VerificationOutcome { valid: false, claims: None, error: Some(Failure::InvalidPublicKey) },
    }
}

} // verus!
