//! What holds of every verification, over the model of `verify_token`.
use vstd::prelude::*;
use crate::primitives::{base64url_decoded, der_signature_raw, raw_signature_accepted};
use crate::signature::{signature_verdict, RAW_SIGNATURE_LEN};
use crate::token::{dot_positions, dots_at, lemma_dot_positions, lemma_two_dots_counted, segment_count};
use crate::validate::ContextView;
use crate::verify::{outcome_spec, rejected, FailureView};

verus! {

/// A token that does not have exactly three dot-separated segments is rejected as
/// malformed, and no claims come with the rejection.
pub proof fn lemma_wrong_segment_count(token: Seq<u8>, key_der: Seq<u8>, ctx: ContextView)
    requires
        segment_count(token) != 3,
    ensures
        outcome_spec(token, key_der, ctx) == rejected(FailureView::MalformedToken, None),
{
    if dot_positions(token) is Some {
        let (i, j) = choose|i: int, j: int| dots_at(token, i, j);
        lemma_two_dots_counted(token, i, j);
    }
}

/// A token of three non-empty segments whose payload segment is not URL-safe base64
/// without padding is rejected as `InvalidEncoding`, without claims.
pub proof fn lemma_payload_not_base64url(token: Seq<u8>, i: int, j: int, key_der: Seq<u8>, ctx: ContextView)
    requires
        dots_at(token, i, j),
        0 < i,
        i + 1 < j,
        j + 1 < token.len(),
        base64url_decoded(token.subrange(i + 1, j)) is None,
    ensures
        outcome_spec(token, key_der, ctx) == rejected(FailureView::InvalidEncoding, None),
{
    lemma_dot_positions(token, i, j);
}

/// Verification is a function of its inputs: the same token, trust anchor and context
/// give the same outcome every time.
pub proof fn lemma_deterministic(
    token1: Seq<u8>,
    token2: Seq<u8>,
    key1: Seq<u8>,
    key2: Seq<u8>,
    ctx1: ContextView,
    ctx2: ContextView,
)
    requires
        token1 == token2,
        key1 == key2,
        ctx1 == ctx2,
    ensures
        outcome_spec(token1, key1, ctx1) == outcome_spec(token2, key2, ctx2),
{
}

/// Claims come with an outcome only where the signature has been found good.
pub proof fn lemma_claims_only_after_signature(token: Seq<u8>, key_der: Seq<u8>, ctx: ContextView)
    ensures
        outcome_spec(token, key_der, ctx).claims is Some ==> (dot_positions(token) matches Some((i, j))
            && signature_verdict(token.subrange(0, j), token.subrange(j + 1, token.len() as int), key_der)
            is Ok),
{
}

/// A signature in its fixed-size form and the same signature in DER verify alike: two
/// tokens that differ only in the signature segment, one holding `raw` and the other
/// holding `der` that p256 reads as `raw`, get the same outcome.
pub proof fn lemma_raw_and_der_agree(
    token_raw: Seq<u8>,
    token_der: Seq<u8>,
    i: int,
    j: int,
    raw: Seq<u8>,
    der: Seq<u8>,
    key_der: Seq<u8>,
    ctx: ContextView,
)
    requires
        dots_at(token_raw, i, j),
        dots_at(token_der, i, j),
        token_raw.subrange(0, j + 1) == token_der.subrange(0, j + 1),
        j + 1 < token_raw.len(),
        j + 1 < token_der.len(),
        base64url_decoded(token_raw.subrange(j + 1, token_raw.len() as int)) == Some(raw),
        base64url_decoded(token_der.subrange(j + 1, token_der.len() as int)) == Some(der),
        raw.len() == RAW_SIGNATURE_LEN,
        raw_signature_accepted(raw),
        der.len() != RAW_SIGNATURE_LEN,
        der_signature_raw(der) == Some(raw),
    ensures
        outcome_spec(token_raw, key_der, ctx) == outcome_spec(token_der, key_der, ctx),
{
    lemma_dot_positions(token_raw, i, j);
    lemma_dot_positions(token_der, i, j);
    assert(token_raw.subrange(0, j) =~= token_raw.subrange(0, j + 1).subrange(0, j));
    assert(token_der.subrange(0, j) =~= token_der.subrange(0, j + 1).subrange(0, j));
    assert(token_raw.subrange(i + 1, j) =~= token_raw.subrange(0, j + 1).subrange(i + 1, j));
    assert(token_der.subrange(i + 1, j) =~= token_der.subrange(0, j + 1).subrange(i + 1, j));
}

} // verus!
