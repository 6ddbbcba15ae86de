//! Verification of compact, signed license tokens.
//!
//! A token is three URL-safe base64 segments joined by `.`: a header, a JSON payload
//! of claims, and an ECDSA P-256 / SHA-256 signature over `header.payload`. The check
//! decodes the token, verifies the signature against a trust anchor, then validates
//! the claims against the caller's clock and machine fingerprint. Every stage is a
//! pure function of its inputs; the first failure ends the check.
pub mod claims;
pub mod laws;
pub mod primitives;
pub mod signature;
pub mod time;
pub mod token;
pub mod validate;
pub mod verify;
