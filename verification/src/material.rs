use vstd::prelude::*;
use crate::bytes::{canon_of, canonical_bytes, is_canon};
use crate::curve::{curve_id_from_nid, curve_id_of, CurveId};
use crate::error::KeyError;

verus! {

/// Field width of P-256 coordinates, in bytes.
pub const P256_FIELD_BYTES: usize = 32;

/// The numeric parameters of a key, one variant per supported key-type and
/// visibility combination. Every integer is held as canonical big-endian
/// bytes. EC private keys are deliberately unsupported and have no variant.
pub enum KeyMaterial {
    EcPublic { curve: CurveId, x: Vec<u8>, y: Vec<u8> },
    RsaPublic { n: Vec<u8>, e: Vec<u8> },
    RsaPrivate { n: Vec<u8>, e: Vec<u8>, d: Vec<u8> },
}

impl KeyMaterial {
    /// Well-formed key material holds each integer in canonical big-endian
    /// form, and P-256 coordinates fit the curve's 32-byte field.
    pub open spec fn wf(self) -> bool {
        match self {
            KeyMaterial::EcPublic { curve, x, y } => is_canon(x@) && is_canon(y@) && (curve
                == CurveId::P256 ==> x@.len() <= 32 && y@.len() <= 32),
            KeyMaterial::RsaPublic { n, e } => is_canon(n@) && is_canon(e@),
            KeyMaterial::RsaPrivate { n, e, d } => is_canon(n@) && is_canon(e@) && is_canon(d@),
        }
    }
}

/// Builds EC public key material from a raw curve id and raw big-endian
/// coordinates. The coordinates are canonicalized; a P-256 coordinate wider
/// than the curve's 32-byte field cannot lie on the curve and is rejected.
pub fn ec_public_material(nid: i32, x: &Vec<u8>, y: &Vec<u8>) -> (r: Result<KeyMaterial, KeyError>)
    ensures
        match r {
            Ok(m) => m matches KeyMaterial::EcPublic { curve, x: mx, y: my } && curve
                == curve_id_of(nid) && mx@ == canon_of(x@) && my@ == canon_of(y@) && m.wf(),
            Err(e) => e is ExtractionFailure,
        },
        r is Ok <==> !(curve_id_of(nid) == CurveId::P256 && (canon_of(x@).len() > 32 || canon_of(
            y@,
        ).len() > 32)),
{
    let curve = curve_id_from_nid(nid);
    let cx = canonical_bytes(x);
    let cy = canonical_bytes(y);
    if curve == CurveId::P256 && (cx.len() > P256_FIELD_BYTES || cy.len() > P256_FIELD_BYTES) {
        return Err(KeyError::ExtractionFailure("coordinate is wider than the P-256 field".to_owned()));
    }
    Ok(KeyMaterial::EcPublic { curve, x: cx, y: cy })
}

/// Builds RSA public key material from raw big-endian modulus and exponent
/// bytes, canonicalizing both.
pub fn rsa_public_material(n: &Vec<u8>, e: &Vec<u8>) -> (r: KeyMaterial)
    ensures
        r matches KeyMaterial::RsaPublic { n: mn, e: me } && mn@ == canon_of(n@) && me@ == canon_of(
            e@,
        ),
        r.wf(),
{
    KeyMaterial::RsaPublic { n: canonical_bytes(n), e: canonical_bytes(e) }
}

/// Builds RSA private key material from raw big-endian modulus, public
/// exponent and private exponent bytes, canonicalizing all three.
pub fn rsa_private_material(n: &Vec<u8>, e: &Vec<u8>, d: &Vec<u8>) -> (r: KeyMaterial)
    ensures
        r matches KeyMaterial::RsaPrivate { n: mn, e: me, d: md } && mn@ == canon_of(n@) && me@
            == canon_of(e@) && md@ == canon_of(d@),
        r.wf(),
{
    KeyMaterial::RsaPrivate {
        n: canonical_bytes(n),
        e: canonical_bytes(e),
        d: canonical_bytes(d),
    }
}

} // verus!
