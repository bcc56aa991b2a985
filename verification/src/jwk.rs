use vstd::prelude::*;
use crate::base64url::{
    all_b64url, b64url_of, base64url_encode, chars_of, lemma_b64url_chars, lemma_b64url_len,
};
use crate::curve::{crv_name, crv_name_of};
use crate::hash::HashDomain;
use crate::material::KeyMaterial;
use crate::thumbprint::{digest_of, kid_of, thumbprint_kid};

verus! {

/// The JWK record of an EC public key. Field order is the serialized order.
pub struct EcOutput {
    pub d: Option<String>,
    pub x: String,
    pub y: String,
    pub kid: String,
    pub crv: String,
    pub kty: String,
    pub alg: String,
}

/// The JWK record of an RSA key, public or private: `d` is present exactly
/// for a private key. Field order is the serialized order.
pub struct RsaOutput {
    pub d: Option<String>,
    pub n: String,
    pub e: String,
    pub kid: String,
    pub kty: String,
    pub alg: String,
}

/// A finished JWK record, one shape per key type.
pub enum Jwk {
    Ec(EcOutput),
    Rsa(RsaOutput),
}

/// The observable content of an EC record: every field, as character
/// sequences.
pub open spec fn ec_obs(o: EcOutput) -> (
    Option<Seq<char>>,
    Seq<char>,
    Seq<char>,
    Seq<char>,
    Seq<char>,
    Seq<char>,
    Seq<char>,
) {
    (opt_chars(o.d), o.x@, o.y@, o.kid@, o.crv@, o.kty@, o.alg@)
}

/// The observable content of an RSA record: every field, as character
/// sequences.
pub open spec fn rsa_obs(o: RsaOutput) -> (
    Option<Seq<char>>,
    Seq<char>,
    Seq<char>,
    Seq<char>,
    Seq<char>,
    Seq<char>,
) {
    (opt_chars(o.d), o.n@, o.e@, o.kid@, o.kty@, o.alg@)
}

pub open spec fn opt_chars(o: Option<String>) -> Option<Seq<char>> {
    match o {
        Some(s) => Some(s@),
        None => None,
    }
}

/// The exact shape a JWK record assembled from given key material and hash
/// domain must have: field set, fixed labels, base64url parameters, curve
/// name, and thumbprint kid.
pub open spec fn jwk_matches(r: Jwk, km: KeyMaterial, domain: HashDomain) -> bool {
    match km {
        KeyMaterial::EcPublic { curve, x, y } => r matches Jwk::Ec(o) && o.d is None && o.x@
            == chars_of(b64url_of(x@)) && o.y@ == chars_of(b64url_of(y@)) && o.kid@ == kid_of(
            km,
            domain,
        ) && o.crv@ == crv_name_of(curve) && o.kty@ == "EC"@ && o.alg@ == "ES256"@,
        KeyMaterial::RsaPublic { n, e } => r matches Jwk::Rsa(o) && o.d is None && o.n@
            == chars_of(b64url_of(n@)) && o.e@ == chars_of(b64url_of(e@)) && o.kid@ == kid_of(
            km,
            domain,
        ) && o.kty@ == "RSA"@ && o.alg@ == "RS256"@,
        KeyMaterial::RsaPrivate { n, e, d } => r matches Jwk::Rsa(o) && (o.d matches Some(ds)
            && ds@ == chars_of(b64url_of(d@))) && o.n@ == chars_of(b64url_of(n@)) && o.e@
            == chars_of(b64url_of(e@)) && o.kid@ == kid_of(km, domain) && o.kty@ == "RSA"@
            && o.alg@ == "RS256"@,
    }
}

/// Assembles the JWK record for well-formed key material: selects the field
/// set of the key's variant, base64url-encodes the parameters, resolves the
/// curve name, and computes the thumbprint kid under the selected domain.
/// The digest is 20 bytes in the SHA-1 domain (EC only) and 32 bytes in the
/// SHA-256 domain.
pub fn jwk_of(km: &KeyMaterial, domain: HashDomain) -> (r: Jwk)
    requires
        km.wf(),
    ensures
        jwk_matches(r, *km, domain),
        digest_of(*km, domain).len() == (if *km is EcPublic && domain == HashDomain::Sha1 {
            20int
        } else {
            32int
        }),
{
    let kid = thumbprint_kid(km, domain);
    match km {
        KeyMaterial::EcPublic { curve, x, y } => Jwk::Ec(
            EcOutput {
                d: None,
                x: base64url_encode(x),
                y: base64url_encode(y),
                kid,
                crv: crv_name(curve),
                kty: "EC".to_owned(),
                alg: "ES256".to_owned(),
            },
        ),
        KeyMaterial::RsaPublic { n, e } => Jwk::Rsa(
            RsaOutput {
                d: None,
                n: base64url_encode(n),
                e: base64url_encode(e),
                kid,
                kty: "RSA".to_owned(),
                alg: "RS256".to_owned(),
            },
        ),
        KeyMaterial::RsaPrivate { n, e, d } => Jwk::Rsa(
            RsaOutput {
                d: Some(base64url_encode(d)),
                n: base64url_encode(n),
                e: base64url_encode(e),
                kid,
                kty: "RSA".to_owned(),
                alg: "RS256".to_owned(),
            },
        ),
    }
}

/// Determinism: two JWK records assembled from the same key material under
/// the same hash domain agree on every observable field.
pub proof fn lemma_jwk_deterministic(r1: Jwk, r2: Jwk, km: KeyMaterial, domain: HashDomain)
    requires
        jwk_matches(r1, km, domain),
        jwk_matches(r2, km, domain),
    ensures
        r1 is Ec <==> r2 is Ec,
        r1 matches Jwk::Ec(a) ==> (r2 matches Jwk::Ec(b) && ec_obs(a) == ec_obs(b)),
        r1 matches Jwk::Rsa(a) ==> (r2 matches Jwk::Rsa(b) && rsa_obs(a) == rsa_obs(b)),
{
}

/// Field presence: a record carries `d` exactly when the key is an RSA
/// private key; an EC record never carries `d`.
pub proof fn lemma_field_presence(r: Jwk, km: KeyMaterial, domain: HashDomain)
    requires
        jwk_matches(r, km, domain),
    ensures
        (r matches Jwk::Rsa(o) && o.d is Some) <==> km is RsaPrivate,
        r matches Jwk::Ec(o) ==> o.d is None,
{
}

/// The kid field of a record, whichever shape it has.
pub open spec fn kid_chars(r: Jwk) -> Seq<char> {
    match r {
        Jwk::Ec(o) => o.kid@,
        Jwk::Rsa(o) => o.kid@,
    }
}

/// Base64url correctness: in a matching record, every parameter field and
/// the kid hold only characters of `A-Z a-z 0-9 - _`, and no `=`.
pub proof fn lemma_jwk_b64url_fields(r: Jwk, km: KeyMaterial, domain: HashDomain)
    requires
        jwk_matches(r, km, domain),
    ensures
        r matches Jwk::Ec(o) ==> all_b64url(o.x@) && all_b64url(o.y@) && all_b64url(o.kid@),
        r matches Jwk::Rsa(o) ==> all_b64url(o.n@) && all_b64url(o.e@) && all_b64url(o.kid@) && (
        o.d matches Some(ds) ==> all_b64url(ds@)),
{
    match km {
        KeyMaterial::EcPublic { curve, x, y } => {
            lemma_b64url_chars(x@);
            lemma_b64url_chars(y@);
            lemma_b64url_chars(digest_of(km, domain));
        },
        KeyMaterial::RsaPublic { n, e } => {
            lemma_b64url_chars(n@);
            lemma_b64url_chars(e@);
            lemma_b64url_chars(digest_of(km, domain));
        },
        KeyMaterial::RsaPrivate { n, e, d } => {
            lemma_b64url_chars(n@);
            lemma_b64url_chars(e@);
            lemma_b64url_chars(d@);
            lemma_b64url_chars(digest_of(km, domain));
        },
    }
}

/// Thumbprint length: the kid of a matching record encodes the digest
/// without padding, so a 20-byte SHA-1 digest yields 27 characters and a
/// 32-byte SHA-256 digest 43.
pub proof fn lemma_kid_length(r: Jwk, km: KeyMaterial, domain: HashDomain)
    requires
        jwk_matches(r, km, domain),
    ensures
        digest_of(km, domain).len() == 20 ==> kid_chars(r).len() == 27,
        digest_of(km, domain).len() == 32 ==> kid_chars(r).len() == 43,
{
    lemma_b64url_len(digest_of(km, domain));
}

/// Unsupported curve policy: an EC key on a curve other than P-256 still
/// yields a record, with the explicit marker "Unknown" as its curve name.
pub proof fn lemma_unknown_curve(r: Jwk, km: KeyMaterial, domain: HashDomain)
    requires
        jwk_matches(r, km, domain),
        km matches KeyMaterial::EcPublic { curve, .. } && curve != crate::curve::CurveId::P256,
    ensures
        r matches Jwk::Ec(o) && o.crv@ == "Unknown"@,
{
}

} // verus!
