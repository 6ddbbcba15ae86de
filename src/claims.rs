//! The claims a token carries, and how they are read from its JSON payload.
use vstd::prelude::*;
use crate::primitives::{
    json_object_in, member, member_at, object_members, parse_json_object,
};

verus! {

/// One member of a JSON object, as far as the claims care.
pub enum JsonMember {
    Absent,
    Null,
    Str(String),
    /// A number that is a non-negative integer within `u64`.
    UInt(u64),
    /// Any other value: a boolean, another number, an array or an object.
    Other,
}

pub enum MemberView {
    Absent,
    Null,
    Str(Seq<char>),
    UInt(u64),
    Other,
}

impl View for JsonMember {
    type V = MemberView;

    open spec fn view(&self) -> MemberView {
        match self {
            JsonMember::Absent => MemberView::Absent,
            JsonMember::Null => MemberView::Null,
            JsonMember::Str(s) => MemberView::Str(s@),
            JsonMember::UInt(u) => MemberView::UInt(*u),
            JsonMember::Other => MemberView::Other,
        }
    }
}

/// The decoded claims of a license token.
#[derive(Clone, Debug)]
pub struct Claims {
    pub customer_name: String,
    pub license_type: String,
    pub max_product_lines: u32,
    pub max_users: Option<u32>,
    pub expires_at: String,
    pub machine_id: Option<String>,
}

pub struct ClaimsView {
    pub customer_name: Seq<char>,
    pub license_type: Seq<char>,
    pub max_product_lines: u32,
    pub max_users: Option<u32>,
    pub expires_at: Seq<char>,
    pub machine_id: Option<Seq<char>>,
}

impl View for Claims {
    type V = ClaimsView;

    open spec fn view(&self) -> ClaimsView {
        ClaimsView {
            customer_name: self.customer_name@,
            license_type: self.license_type@,
            max_product_lines: self.max_product_lines,
            max_users: self.max_users,
            expires_at: self.expires_at@,
            machine_id: match self.machine_id {
                Some(s) => Some(s@),
                None => None,
            },
        }
    }
}

/// A required text member: it must be a JSON string.
pub open spec fn required_text(m: MemberView) -> Option<Seq<char>> {
    match m {
        MemberView::Str(s) => Some(s),
        _ => None,
    }
}

/// A count that defaults to zero: absent, or an integer that fits in `u32`.
pub open spec fn count_or_zero(m: MemberView) -> Option<u32> {
    match m {
        MemberView::Absent => Some(0),
        MemberView::UInt(u) => if u <= u32::MAX {
            Some(u as u32)
        } else {
            None
        },
        _ => None,
    }
}

/// An optional count: absent or null, or an integer that fits in `u32`.
pub open spec fn optional_count(m: MemberView) -> Option<Option<u32>> {
    match m {
        MemberView::Absent | MemberView::Null => Some(None),
        MemberView::UInt(u) => if u <= u32::MAX {
            Some(Some(u as u32))
        } else {
            None
        },
        _ => None,
    }
}

/// An optional text: absent or null, or a JSON string.
pub open spec fn optional_text(m: MemberView) -> Option<Option<Seq<char>>> {
    match m {
        MemberView::Absent | MemberView::Null => Some(None),
        MemberView::Str(s) => Some(Some(s)),
        _ => None,
    }
}

/// The claims that the members of a JSON object describe, if they are well typed.
pub open spec fn claims_from_members(ms: Map<Seq<char>, MemberView>) -> Option<ClaimsView> {
    let customer_name = required_text(member_at(ms, "customerName"@));
    let license_type = required_text(member_at(ms, "type"@));
    let max_product_lines = count_or_zero(member_at(ms, "maxProductLines"@));
    let max_users = optional_count(member_at(ms, "maxUsers"@));
    let expires_at = required_text(member_at(ms, "expiresAt"@));
    let machine_id = optional_text(member_at(ms, "machineId"@));
    if customer_name is Some && license_type is Some && max_product_lines is Some
        && max_users is Some && expires_at is Some && machine_id is Some {
        Some(
            ClaimsView {
                customer_name: customer_name->0,
                license_type: license_type->0,
                max_product_lines: max_product_lines->0,
                max_users: max_users->0,
                expires_at: expires_at->0,
                machine_id: machine_id->0,
            },
        )
    } else {
        None
    }
}

/// The claims that a decoded payload holds: a JSON object with well-typed members.
pub open spec fn claims_from_json(payload: Seq<u8>) -> Option<ClaimsView> {
    match json_object_in(payload) {
        Some(ms) => claims_from_members(ms),
        None => None,
    }
}

fn read_required_text(m: JsonMember) -> (r: Option<String>)
    ensures
        required_text(m@) == match r {
            Some(s) => Some(s@),
            None => None,
        },
{
    match m {
        JsonMember::Str(s) => Some(s),
        _ => None,
    }
}

fn read_count_or_zero(m: JsonMember) -> (r: Option<u32>)
    ensures
        r == count_or_zero(m@),
{
    match m {
        JsonMember::Absent => Some(0),
        JsonMember::UInt(u) => if u <= u32::MAX as u64 {
            Some(u as u32)
        } else {
            None
        },
        _ => None,
    }
}

fn read_optional_count(m: JsonMember) -> (r: Option<Option<u32>>)
    ensures
        r == optional_count(m@),
{
    match m {
        JsonMember::Absent | JsonMember::Null => Some(None),
        JsonMember::UInt(u) => if u <= u32::MAX as u64 {
            Some(Some(u as u32))
        } else {
            None
        },
        _ => None,
    }
}

fn read_optional_text(m: JsonMember) -> (r: Option<Option<String>>)
    ensures
        r matches Some(o) ==> optional_text(m@) == Some(match o {
            Some(s) => Some(s@),
            None => None,
        }),
        r is None <==> optional_text(m@) is None,
{
    match m {
        JsonMember::Absent | JsonMember::Null => Some(None),
        JsonMember::Str(s) => Some(Some(s)),
        _ => None,
    }
}

/// Reads the claims from a decoded payload. `None` when the payload is not a JSON
/// object, or when a required member is missing or a member has the wrong type.
pub fn decode_claims(payload: &[u8]) -> (r: Option<Claims>)
    ensures
        claims_from_json(payload@) == match r {
            Some(c) => Some(c@),
            None => None,
        },
{
    let obj = match parse_json_object(payload) {
        Some(m) => m,
        None => return None,
    };
    let ghost ms = object_members(obj);
    let customer_name = match read_required_text(member(&obj, "customerName")) {
        Some(s) => s,
        None => return None,
    };
    let license_type = match read_required_text(member(&obj, "type")) {
        Some(s) => s,
        None => return None,
    };
    let max_product_lines = match read_count_or_zero(member(&obj, "maxProductLines")) {
        Some(n) => n,
        None => return None,
    };
    let max_users = match read_optional_count(member(&obj, "maxUsers")) {
        Some(n) => n,
        None => return None,
    };
    let expires_at = match read_required_text(member(&obj, "expiresAt")) {
        Some(s) => s,
        None => return None,
    };
    let machine_id = match read_optional_text(member(&obj, "machineId")) {
        Some(s) => s,
        None => return None,
    };
    let c = Claims { customer_name, license_type, max_product_lines, max_users, expires_at, machine_id };
    assert(c@.machine_id == optional_text(member_at(ms, "machineId"@))->0);
    Some(c)
}

} // verus!
