use vstd::prelude::*;

verus! {

/// The numeric identifier under which the parsing library files the NIST
/// P-256 curve (`prime256v1`).
pub const P256_NID: i32 = 415;

/// An elliptic-curve identifier. Curves other than P-256 keep their raw
/// numeric identifier; they are carried through rather than rejected.
#[derive(PartialEq, Eq, Structural, Clone, Copy, Debug)]
pub enum CurveId {
    P256,
    Other(i32),
}

/// The curve identifier a raw numeric curve id denotes.
pub open spec fn curve_id_of(nid: i32) -> CurveId {
    if nid == 415 {
        CurveId::P256
    } else {
        CurveId::Other(nid)
    }
}

/// Builds the curve identifier from a raw numeric curve id.
pub fn curve_id_from_nid(nid: i32) -> (r: CurveId)
    ensures
        r == curve_id_of(nid),
{
    if nid == P256_NID {
        CurveId::P256
    } else {
        CurveId::Other(nid)
    }
}

/// The JWK `crv` name of a curve: only P-256 has one; every other curve
/// resolves, by a deliberate best-effort policy, to the marker "Unknown"
/// rather than to a failure.
pub open spec fn crv_name_of(curve: CurveId) -> Seq<char> {
    if curve == CurveId::P256 {
        "P-256"@
    } else {
        "Unknown"@
    }
}

/// Resolves a curve identifier to its JWK `crv` name.
pub fn crv_name(curve: &CurveId) -> (r: String)
    ensures
        r@ == crv_name_of(*curve),
{
    match curve {
        CurveId::P256 => "P-256".to_owned(),
        CurveId::Other(_) => "Unknown".to_owned(),
    }
}

} // verus!
