use vstd::prelude::*;
use crate::base64url::{b64url_of, base64url_encode, chars_of};
use crate::curve::CurveId;
use crate::hash::{sha1_bytes, sha1_of, sha256_bytes, sha256_of, HashDomain};
use crate::material::{KeyMaterial, P256_FIELD_BYTES};

verus! {

/// `s` left-padded with zero bytes to width `w` (for `w >= s.len()`).
pub open spec fn pad_of(s: Seq<u8>, w: nat) -> Seq<u8> {
    Seq::new((w - s.len()) as nat, |i: int| 0u8) + s
}

/// The field width, in bytes, to which both coordinates are padded in the
/// uncompressed point encoding: 32 for the P-256 field; for a curve with no
/// known width, the wider coordinate sets it.
pub open spec fn ec_width_of(curve: CurveId, x: Seq<u8>, y: Seq<u8>) -> nat {
    if curve == CurveId::P256 {
        32
    } else if x.len() >= y.len() {
        x.len()
    } else {
        y.len()
    }
}

/// The uncompressed point encoding: the form marker 4, then both affine
/// coordinates at the curve's fixed field width.
pub open spec fn ec_point_of(curve: CurveId, x: Seq<u8>, y: Seq<u8>) -> Seq<u8> {
    seq![4u8] + pad_of(x, ec_width_of(curve, x, y)) + pad_of(y, ec_width_of(curve, x, y))
}

/// The byte string whose hash identifies a key: the uncompressed point for an
/// EC key; the canonical parameters, concatenated in order with no separators
/// and no length prefixes, for an RSA key.
pub open spec fn hash_input_of(km: KeyMaterial) -> Seq<u8> {
    match km {
        KeyMaterial::EcPublic { curve, x, y } => ec_point_of(curve, x@, y@),
        KeyMaterial::RsaPublic { n, e } => n@ + e@,
        KeyMaterial::RsaPrivate { n, e, d } => n@ + e@ + d@,
    }
}

/// The thumbprint digest of a key: the selected domain's hash for an EC key,
/// SHA-256 for an RSA key.
pub open spec fn digest_of(km: KeyMaterial, domain: HashDomain) -> Seq<u8> {
    match km {
        KeyMaterial::EcPublic { .. } => match domain {
            HashDomain::Sha1 => sha1_of(hash_input_of(km)),
            HashDomain::Sha256 => sha256_of(hash_input_of(km)),
        },
        _ => sha256_of(hash_input_of(km)),
    }
}

/// The `kid` of a key: its thumbprint digest, base64url-encoded.
pub open spec fn kid_of(km: KeyMaterial, domain: HashDomain) -> Seq<char> {
    chars_of(b64url_of(digest_of(km, domain)))
}

/// Left-pads a byte string with zero bytes to width `w`.
fn pad_left(s: &Vec<u8>, w: usize) -> (r: Vec<u8>)
    requires
        s@.len() <= w,
    ensures
        r@ == pad_of(s@, w as nat),
{
    let k: usize = w - s.len();
    let mut r: Vec<u8> = Vec::new();
    let mut i: usize = 0;
    while i < k
        invariant
            i <= k,
            r@ =~= Seq::new(i as nat, |j: int| 0u8),
        decreases k - i,
    {
        r.push(0);
        proof {
            assert(r@ =~= Seq::new((i + 1) as nat, |j: int| 0u8));
        }
        i = i + 1;
    }
    append_bytes(&mut r, s);
    proof {
        assert(r@ =~= pad_of(s@, w as nat));
    }
    r
}

/// Appends `b`'s bytes to `r`.
fn append_bytes(r: &mut Vec<u8>, b: &Vec<u8>)
    ensures
        final(r)@ == old(r)@ + b@,
{
    let mut i: usize = 0;
    proof {
        assert(r@ =~= old(r)@ + b@.subrange(0, 0));
    }
    while i < b.len()
        invariant
            i <= b@.len(),
            r@ =~= old(r)@ + b@.subrange(0, i as int),
        decreases b@.len() - i,
    {
        r.push(b[i]);
        proof {
            assert(r@ =~= old(r)@ + b@.subrange(0, i as int + 1));
        }
        i = i + 1;
    }
    proof {
        assert(b@.subrange(0, b@.len() as int) =~= b@);
    }
}

/// Builds the uncompressed point encoding of an EC public key.
pub fn ec_point_bytes(curve: &CurveId, x: &Vec<u8>, y: &Vec<u8>) -> (r: Vec<u8>)
    requires
        *curve == CurveId::P256 ==> x@.len() <= 32 && y@.len() <= 32,
    ensures
        r@ == ec_point_of(*curve, x@, y@),
{
    let w: usize = if *curve == CurveId::P256 {
        P256_FIELD_BYTES
    } else if x.len() >= y.len() {
        x.len()
    } else {
        y.len()
    };
    let px = pad_left(x, w);
    let py = pad_left(y, w);
    let mut r: Vec<u8> = Vec::new();
    r.push(4);
    append_bytes(&mut r, &px);
    append_bytes(&mut r, &py);
    proof {
        assert(r@ =~= ec_point_of(*curve, x@, y@));
    }
    r
}

/// Builds the byte string whose hash identifies the key.
pub fn hash_input_bytes(km: &KeyMaterial) -> (r: Vec<u8>)
    requires
        km.wf(),
    ensures
        r@ == hash_input_of(*km),
{
    match km {
        KeyMaterial::EcPublic { curve, x, y } => ec_point_bytes(curve, x, y),
        KeyMaterial::RsaPublic { n, e } => {
            let mut r: Vec<u8> = Vec::new();
            append_bytes(&mut r, n);
            append_bytes(&mut r, e);
            proof {
                assert(r@ =~= n@ + e@);
            }
            r
        },
        KeyMaterial::RsaPrivate { n, e, d } => {
            let mut r: Vec<u8> = Vec::new();
            append_bytes(&mut r, n);
            append_bytes(&mut r, e);
            append_bytes(&mut r, d);
            proof {
                assert(r@ =~= n@ + e@ + d@);
            }
            r
        },
    }
}

/// Computes the `kid`: the thumbprint digest of the key under the selected
/// hash domain, base64url-encoded without padding. The SHA-1 domain applies
/// only to EC keys; RSA thumbprints always use SHA-256.
pub fn thumbprint_kid(km: &KeyMaterial, domain: HashDomain) -> (r: String)
    requires
        km.wf(),
    ensures
        r@ == kid_of(*km, domain),
        digest_of(*km, domain).len() == (if *km is EcPublic && domain == HashDomain::Sha1 {
            20int
        } else {
            32int
        }),
{
    let input = hash_input_bytes(km);
    let digest = match km {
        KeyMaterial::EcPublic { .. } => match domain {
            HashDomain::Sha1 => sha1_bytes(&input),
            HashDomain::Sha256 => sha256_bytes(&input),
        },
        _ => sha256_bytes(&input),
    };
    base64url_encode(&digest)
}

} // verus!
