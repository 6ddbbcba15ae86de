//! Checking decoded claims against the caller's context: expiry and machine binding.
use vstd::prelude::*;
use vstd::string::StringSliceAdditionalSpecFns;
use vstd::utf8::{decode_utf8, encode_utf8, encode_utf8_decode_utf8, encode_utf8_valid_utf8, is_char_boundary_iff_not_is_continuation_byte};
use crate::claims::{Claims, ClaimsView};
use crate::primitives::{parse_rfc3339, rfc3339_instant};
use crate::time::{later, Timestamp};

verus! {

/// The byte that ends the machine identifier within a fingerprint.
pub const BAR: u8 = 0x7c;

/// What the caller knows that the token does not: the time now, and the fingerprint of
/// the machine, whose fields are separated by `|` and whose first field names the machine.
#[derive(Clone, Debug)]
pub struct VerificationContext {
    pub now: Timestamp,
    pub fingerprint: Option<String>,
}

pub struct ContextView {
    pub now: Timestamp,
    pub fingerprint: Option<Seq<char>>,
}

impl View for VerificationContext {
    type V = ContextView;

    open spec fn view(&self) -> ContextView {
        ContextView {
            now: self.now,
            fingerprint: match self.fingerprint {
                Some(f) => Some(f@),
                None => None,
            },
        }
    }
}

/// Why valid, signed claims are still not honoured.
#[derive(Clone, Debug)]
pub enum ValidationError {
    InvalidExpiryFormat,
    Expired,
    MachineBindingRequired,
    /// The machine the claims name, and the one the fingerprint names.
    MachineMismatch { expected: String, actual: String },
}

pub enum ValidationErrorView {
    InvalidExpiryFormat,
    Expired,
    MachineBindingRequired,
    MachineMismatch { expected: Seq<char>, actual: Seq<char> },
}

impl View for ValidationError {
    type V = ValidationErrorView;

    open spec fn view(&self) -> ValidationErrorView {
        match self {
            ValidationError::InvalidExpiryFormat => ValidationErrorView::InvalidExpiryFormat,
            ValidationError::Expired => ValidationErrorView::Expired,
            ValidationError::MachineBindingRequired => ValidationErrorView::MachineBindingRequired,
            ValidationError::MachineMismatch { expected, actual } => ValidationErrorView::MachineMismatch {
                expected: expected@,
                actual: actual@,
            },
        }
    }
}

/// The position of the first `|` in the bytes, or their length where there is none.
pub open spec fn bar_index(b: Seq<u8>) -> nat
    decreases b.len(),
{
    if b.len() == 0 || b[0] == BAR {
        0
    } else {
        1 + bar_index(b.drop_first())
    }
}

/// The machine a fingerprint names: its text up to the first `|`.
pub open spec fn fingerprint_machine(f: Seq<char>) -> Seq<char> {
    let b = encode_utf8(f);
    decode_utf8(b.subrange(0, bar_index(b) as int))
}

/// The verdict on the machine binding of claims that name `machine`.
pub open spec fn binding_verdict(machine: Option<Seq<char>>, fingerprint: Option<Seq<char>>) -> Result<
    (),
    ValidationErrorView,
> {
    match machine {
        None => Ok(()),
        Some(m) => match fingerprint {
            None => Err(ValidationErrorView::MachineBindingRequired),
            Some(f) => if m == fingerprint_machine(f) {
                Ok(())
            } else {
                Err(ValidationErrorView::MachineMismatch { expected: m, actual: fingerprint_machine(f) })
            },
        },
    }
}

/// The verdict on claims in a context: expiry first, then machine binding. Expiry
/// is inclusive: a token is still good at the very instant it expires.
pub open spec fn validation_verdict(c: ClaimsView, ctx: ContextView) -> Result<(), ValidationErrorView> {
    match rfc3339_instant(c.expires_at) {
        None => Err(ValidationErrorView::InvalidExpiryFormat),
        Some((s, n)) => if later(ctx.now, Timestamp { seconds: s, nanos: n }) {
            Err(ValidationErrorView::Expired)
        } else {
            binding_verdict(c.machine_id, ctx.fingerprint)
        },
    }
}

proof fn lemma_bar_index(b: Seq<u8>, k: int)
    requires
        0 <= k <= b.len(),
        forall|m: int| 0 <= m < k ==> b[m] != BAR,
        k == b.len() || b[k] == BAR,
    ensures
        bar_index(b) == k,
    decreases k,
{
    if k > 0 {
        lemma_bar_index(b.drop_first(), k - 1);
    }
}

/// The machine identifier of a fingerprint: the text before its first `|`, or all of it.
pub fn machine_of_fingerprint(f: &str) -> (r: &str)
    ensures
        r@ == fingerprint_machine(f@),
{
    let b = f.as_bytes();
    let mut k: usize = 0;
    while k < b.len() && b[k] != BAR
        invariant
            k <= b@.len(),
            forall|m: int| 0 <= m < k ==> b@[m] != BAR,
        decreases b@.len() - k,
    {
        k = k + 1;
    }
    proof {
        lemma_bar_index(b@, k as int);
        encode_utf8_valid_utf8(f@);
        encode_utf8_decode_utf8(f@);
    }
    if k == b.len() {
        assert(b@.subrange(0, k as int) =~= b@);
        return f;
    }
    proof {
        is_char_boundary_iff_not_is_continuation_byte(b@, k as int);
    }
    let (head, _) = f.split_at(k);
    proof {
        encode_utf8_decode_utf8(head@);
    }
    head
}

fn same_text(a: &str, b: &str) -> (r: bool)
    ensures
        r == (a@ == b@),
{
    let x = a.as_bytes();
    let y = b.as_bytes();
    proof {
        encode_utf8_decode_utf8(a@);
        encode_utf8_decode_utf8(b@);
    }
    if x.len() != y.len() {
        proof {
            if a@ == b@ {
                assert(a.spec_bytes() == encode_utf8(a@));
                assert(b.spec_bytes() == encode_utf8(b@));
            }
        }
        return false;
    }
    let mut k: usize = 0;
    while k < x.len()
        invariant
            x@ == a.spec_bytes(),
            y@ == b.spec_bytes(),
            x@.len() == y@.len(),
            k <= x@.len(),
            forall|m: int| 0 <= m < k ==> x@[m] == y@[m],
        decreases x@.len() - k,
    {
        if x[k] != y[k] {
            assert(x@[k as int] != y@[k as int]);
            proof {
                if a@ == b@ {
                    assert(a.spec_bytes() == encode_utf8(a@));
                    assert(b.spec_bytes() == encode_utf8(b@));
                }
            }
            return false;
        }
        k = k + 1;
    }
    assert(x@ =~= y@);
    true
}

/// Checks the machine binding: claims that name no machine are good anywhere; claims
/// that name one need a fingerprint whose first field is exactly that machine.
pub fn check_binding(machine_id: &Option<String>, fingerprint: &Option<String>) -> (r: Result<(), ValidationError>)
    ensures
        binding_verdict(
            match machine_id {
                Some(m) => Some(m@),
                None => None,
            },
            match fingerprint {
                Some(f) => Some(f@),
                None => None,
            },
        ) == match r {
            Ok(()) => Ok(()),
            Err(e) => Err(e@),
        },
{
    match machine_id {
        None => Ok(()),
        Some(m) => match fingerprint {
            None => Err(ValidationError::MachineBindingRequired),
            Some(f) => {
                let actual = machine_of_fingerprint(f.as_str());
                if same_text(m.as_str(), actual) {
                    Ok(())
                } else {
                    Err(ValidationError::MachineMismatch { expected: m.clone(), actual: actual.to_owned() })
                }
            },
        },
    }
}

/// Checks the claims against the context: the expiry must parse as an RFC 3339 date-time
/// and must not lie before the time now; then the machine binding must hold.
pub fn validate(claims: &Claims, context: &VerificationContext) -> (r: Result<(), ValidationError>)
    ensures
        validation_verdict(claims@, context@) == match r {
            Ok(()) => Ok(()),
            Err(e) => Err(e@),
        },
{
    let expiry = match parse_rfc3339(claims.expires_at.as_str()) {
        Some(t) => t,
        None => return Err(ValidationError::InvalidExpiryFormat),
    };
    if context.now.is_after(&expiry) {
        return Err(ValidationError::Expired);
    }
    check_binding(&claims.machine_id, &context.fingerprint)
}

} // verus!
