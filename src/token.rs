//! Splitting a compact token into its three segments and reading its claims.
use vstd::prelude::*;
use vstd::slice::slice_subrange;
use crate::claims::{claims_from_json, decode_claims, Claims, ClaimsView};
use crate::primitives::{base64url_decoded, decode_base64url};

verus! {

/// The byte that separates the segments of a token.
pub const DOT: u8 = 0x2e;

/// The number of separators in the token.
pub open spec fn dot_count(t: Seq<u8>) -> nat
    decreases t.len(),
{
    if t.len() == 0 {
        0
    } else {
        dot_count(t.drop_last()) + if t.last() == DOT {
            1nat
        } else {
            0nat
        }
    }
}

/// The number of segments the separators cut the token into.
pub open spec fn segment_count(t: Seq<u8>) -> nat {
    dot_count(t) + 1
}

/// `i` and `j` are the token's only two separators.
pub open spec fn dots_at(t: Seq<u8>, i: int, j: int) -> bool {
    &&& 0 <= i < j < t.len()
    &&& t[i] == DOT
    &&& t[j] == DOT
    &&& forall|k: int| 0 <= k < t.len() && t[k] == DOT ==> k == i || k == j
}

/// The positions of the token's two separators, where it has exactly two.
pub open spec fn dot_positions(t: Seq<u8>) -> Option<(int, int)> {
    if exists|i: int, j: int| dots_at(t, i, j) {
        let (i, j) = choose|i: int, j: int| dots_at(t, i, j);
        Some((i, j))
    } else {
        None
    }
}

/// Everything the decoder reads from a well-formed token: its segments, the signed
/// bytes, and the claims.
pub struct DecodedToken<'a> {
    /// `header.payload`, exactly as it stands in the token.
    pub signing_input: &'a [u8],
    pub payload_segment: &'a [u8],
    pub signature_segment: &'a [u8],
    pub payload: Vec<u8>,
    pub claims: Claims,
}

/// Why a token could not be decoded.
#[derive(Clone, Copy, Debug, PartialEq, Eq, Structural)]
pub enum DecodeError {
    MalformedToken,
    InvalidEncoding,
    InvalidClaims,
}

/// What decoding yields on a token, in the model: the separators' positions, the
/// decoded payload and the claims; or the error.
pub open spec fn decode_spec(t: Seq<u8>) -> Result<(int, int, Seq<u8>, ClaimsView), DecodeError> {
    match dot_positions(t) {
        Some((i, j)) if 0 < i && i + 1 < j && j + 1 < t.len() => {
            match base64url_decoded(t.subrange(i + 1, j)) {
                None => Err(DecodeError::InvalidEncoding),
                Some(p) => match claims_from_json(p) {
                    None => Err(DecodeError::InvalidClaims),
                    Some(c) => Ok((i, j, p, c)),
                },
            }
        },
        _ => Err(DecodeError::MalformedToken),
    }
}

proof fn lemma_dots_unique(t: Seq<u8>, i: int, j: int, i2: int, j2: int)
    requires
        dots_at(t, i, j),
        dots_at(t, i2, j2),
    ensures
        i == i2 && j == j2,
{
}

/// Where the token has exactly two separators, `dot_positions` finds them.
pub proof fn lemma_dot_positions(t: Seq<u8>, i: int, j: int)
    requires
        dots_at(t, i, j),
    ensures
        dot_positions(t) == Some((i, j)),
{
    let (a, b) = choose|a: int, b: int| dots_at(t, a, b);
    lemma_dots_unique(t, a, b, i, j);
}

proof fn lemma_dot_count_prefix(t: Seq<u8>, i: int, j: int, n: int)
    requires
        dots_at(t, i, j),
        0 <= n <= t.len(),
    ensures
        dot_count(t.subrange(0, n)) == (if i < n { 1int } else { 0int }) + (if j < n { 1int } else { 0int }),
    decreases n,
{
    if n > 0 {
        assert(t.subrange(0, n).drop_last() =~= t.subrange(0, n - 1));
        lemma_dot_count_prefix(t, i, j, n - 1);
    }
}

/// A token whose separators stand at `i` and `j` alone has two separators.
pub proof fn lemma_two_dots_counted(t: Seq<u8>, i: int, j: int)
    requires
        dots_at(t, i, j),
    ensures
        dot_count(t) == 2,
{
    lemma_dot_count_prefix(t, i, j, t.len() as int);
    assert(t.subrange(0, t.len() as int) =~= t);
}

/// Finds the token's two separators; `None` when it has fewer or more.
fn find_dots(t: &[u8]) -> (r: Option<(usize, usize)>)
    ensures
        match r {
            Some((i, j)) => dots_at(t@, i as int, j as int),
            None => dot_positions(t@) is None,
        },
{
    let mut first: usize = 0;
    let mut second: usize = 0;
    let mut found: usize = 0;
    let mut k: usize = 0;
    while k < t.len()
        invariant
            k <= t@.len(),
            found <= 2,
            found >= 1 ==> first < k && t@[first as int] == DOT,
            found >= 2 ==> first < second < k && t@[second as int] == DOT,
            forall|m: int|
                0 <= m < k && t@[m] == DOT ==> (found >= 1 && m == first) || (found >= 2 && m == second),
        decreases t@.len() - k,
    {
        if t[k] == DOT {
            if found == 0 {
                first = k;
            } else if found == 1 {
                second = k;
            } else {
                proof {
                    if exists|i: int, j: int| dots_at(t@, i, j) {
                        let (i, j) = choose|i: int, j: int| dots_at(t@, i, j);
                        assert(t@[first as int] == DOT && t@[second as int] == DOT && t@[k as int] == DOT);
                    }
                }
                return None;
            }
            found = found + 1;
        }
        k = k + 1;
    }
    if found == 2 {
        Some((first, second))
    } else {
        proof {
            if exists|i: int, j: int| dots_at(t@, i, j) {
                let (i, j) = choose|i: int, j: int| dots_at(t@, i, j);
                assert(t@[i] == DOT && t@[j] == DOT);
            }
        }
        None
    }
}

/// Splits a token into its segments, decodes the payload segment from URL-safe
/// base64 without padding, and reads the claims from it. A token that is not three
/// non-empty segments is `MalformedToken`; a payload that is not base64url is
/// `InvalidEncoding`; one that holds no well-typed claims is `InvalidClaims`.
pub fn decode(token: &[u8]) -> (r: Result<DecodedToken<'_>, DecodeError>)
    ensures
        match (r, decode_spec(token@)) {
            (Ok(d), Ok((i, j, p, c))) => {
                &&& d.signing_input@ == token@.subrange(0, j)
                &&& d.payload_segment@ == token@.subrange(i + 1, j)
                &&& d.signature_segment@ == token@.subrange(j + 1, token@.len() as int)
                &&& d.payload@ == p
                &&& d.claims@ == c
            },
            (Err(e), Err(e2)) => e == e2,
            _ => false,
        },
{
    let (i, j) = match find_dots(token) {
        Some(p) => p,
        None => return Err(DecodeError::MalformedToken),
    };
    proof {
        lemma_dot_positions(token@, i as int, j as int);
    }
    if !(0 < i && i + 1 < j && j < token.len() - 1) {
        return Err(DecodeError::MalformedToken);
    }
    let signing_input = slice_subrange(token, 0, j);
    let payload_segment = slice_subrange(token, i + 1, j);
    let signature_segment = slice_subrange(token, j + 1, token.len());
    let payload = match decode_base64url(payload_segment) {
        Some(p) => p,
        None => return Err(DecodeError::InvalidEncoding),
    };
    let claims = match decode_claims(payload.as_slice()) {
        Some(c) => c,
        None => return Err(DecodeError::InvalidClaims),
    };
    Ok(DecodedToken { signing_input, payload_segment, signature_segment, payload, claims })
}

} // verus!
