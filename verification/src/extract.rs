use vstd::prelude::*;
use openssl::bn::{BigNum, BigNumContext};
use openssl::ec::EcKey;
use openssl::error::ErrorStack;
use openssl::pkey::{PKey, Private, Public};
use openssl::rsa::Rsa;
use crate::error::KeyError;
use crate::hash::HashDomain;
use crate::jwk::{jwk_matches, jwk_of, EcOutput, Jwk, RsaOutput};
use crate::material::{
    ec_public_material, rsa_private_material, rsa_public_material, KeyMaterial,
};
use vstd::pervasive::unreached;

verus! {

#[verifier::external_type_specification]
#[verifier::external_body]
pub struct ExErrorStack(ErrorStack);

#[verifier::external_type_specification]
#[verifier::external_body]
pub struct ExPublic(Public);

#[verifier::external_type_specification]
#[verifier::external_body]
pub struct ExPrivate(Private);

#[verifier::external_type_specification]
#[verifier::external_body]
#[verifier::reject_recursive_types(T)]
pub struct ExPKey<T>(PKey<T>);

#[verifier::external_type_specification]
#[verifier::external_body]
#[verifier::reject_recursive_types(T)]
pub struct ExEcKey<T>(EcKey<T>);

#[verifier::external_type_specification]
#[verifier::external_body]
#[verifier::reject_recursive_types(T)]
pub struct ExRsa<T>(Rsa<T>);

/// Relies on ErrorStack's Display impl: the parsing library's own
/// description of a failure, as plain text for diagnostic chaining.
#[verifier::external_body]
fn error_text(e: &ErrorStack) -> (r: String) {
    format!("{}", e)
}

/// Relies on PKey::public_key_from_pem: parses PEM-encoded public key
/// material, Ok exactly when the library accepts it.
#[verifier::external_body]
fn parse_public_pem(pem: &Vec<u8>) -> (r: Result<PKey<Public>, ErrorStack>) {
    PKey::public_key_from_pem(pem.as_slice())
}

/// Relies on PKey::private_key_from_pem: parses PEM-encoded private key
/// material, Ok exactly when the library accepts it.
#[verifier::external_body]
fn parse_private_pem(pem: &Vec<u8>) -> (r: Result<PKey<Private>, ErrorStack>) {
    PKey::private_key_from_pem(pem.as_slice())
}

/// Relies on PKey::ec_key: the EC key underneath, where the key is EC.
#[verifier::external_body]
fn pkey_ec_public(key: &PKey<Public>) -> (r: Option<EcKey<Public>>) {
    key.ec_key().ok()
}

/// Relies on PKey::rsa: the RSA key underneath, where the key is RSA.
#[verifier::external_body]
fn pkey_rsa_public(key: &PKey<Public>) -> (r: Option<Rsa<Public>>) {
    key.rsa().ok()
}

/// Relies on PKey::ec_key: the EC key underneath, where the key is EC.
#[verifier::external_body]
fn pkey_ec_private(key: &PKey<Private>) -> (r: Option<EcKey<Private>>) {
    key.ec_key().ok()
}

/// Relies on PKey::rsa: the RSA key underneath, where the key is RSA.
#[verifier::external_body]
fn pkey_rsa_private(key: &PKey<Private>) -> (r: Option<Rsa<Private>>) {
    key.rsa().ok()
}

/// Relies on EcPointRef::affine_coordinates (EC_POINT_get_affine_coordinates)
/// and BigNumRef::to_vec (BN_bn2bin): the affine x and y of the key's point
/// on its curve, as big-endian bytes.
#[verifier::external_body]
fn ec_affine_xy(key: &EcKey<Public>) -> (r: Result<(Vec<u8>, Vec<u8>), ErrorStack>) {
    let mut ctx = BigNumContext::new()?;
    let mut x = BigNum::new()?;
    let mut y = BigNum::new()?;
    key.public_key().affine_coordinates(key.group(), &mut x, &mut y, &mut ctx)?;
    Ok((x.to_vec(), y.to_vec()))
}

/// Relies on EcGroupRef::curve_name and Nid::as_raw: the numeric identifier
/// of the key's named curve, or None for an unnamed curve.
#[verifier::external_body]
fn ec_curve_nid(key: &EcKey<Public>) -> (r: Option<i32>) {
    match key.group().curve_name() {
        Some(nid) => Some(nid.as_raw()),
        None => None,
    }
}

/// Relies on RsaRef::n and BigNumRef::to_vec (BN_bn2bin): the modulus as
/// big-endian bytes.
#[verifier::external_body]
fn rsa_public_n(key: &Rsa<Public>) -> (r: Vec<u8>) {
    key.n().to_vec()
}

/// Relies on RsaRef::e and BigNumRef::to_vec: the public exponent as
/// big-endian bytes.
#[verifier::external_body]
fn rsa_public_e(key: &Rsa<Public>) -> (r: Vec<u8>) {
    key.e().to_vec()
}

/// Relies on RsaRef::n and BigNumRef::to_vec: the modulus as big-endian
/// bytes.
#[verifier::external_body]
fn rsa_private_n(key: &Rsa<Private>) -> (r: Vec<u8>) {
    key.n().to_vec()
}

/// Relies on RsaRef::e and BigNumRef::to_vec: the public exponent as
/// big-endian bytes.
#[verifier::external_body]
fn rsa_private_e(key: &Rsa<Private>) -> (r: Vec<u8>) {
    key.e().to_vec()
}

/// Relies on RsaRef::d and BigNumRef::to_vec: the private exponent as
/// big-endian bytes.
#[verifier::external_body]
fn rsa_private_d(key: &Rsa<Private>) -> (r: Vec<u8>) {
    key.d().to_vec()
}

/// Extracts EC public key material: the affine coordinates of the key's
/// point and its curve identifier, canonicalized. Errs with
/// ExtractionFailure when the coordinates cannot be recovered or the curve
/// has no name.
pub fn extract_ec_public(key: &EcKey<Public>) -> (r: Result<KeyMaterial, KeyError>)
    ensures
        match r {
            Ok(m) => m is EcPublic && m.wf(),
            Err(e) => e is ExtractionFailure,
        },
{
    let (xb, yb) = match ec_affine_xy(key) {
        Ok(p) => p,
        Err(es) => {
            return Err(KeyError::ExtractionFailure(error_text(&es)));
        },
    };
    let nid = match ec_curve_nid(key) {
        Some(n) => n,
        None => {
            return Err(KeyError::ExtractionFailure("the key's curve has no name".to_owned()));
        },
    };
    ec_public_material(nid, &xb, &yb)
}

/// Extracts RSA public key material: the modulus and public exponent,
/// canonicalized. Reading them from a parsed RSA key cannot fail.
pub fn extract_rsa_public(key: &Rsa<Public>) -> (r: KeyMaterial)
    ensures
        r is RsaPublic,
        r.wf(),
{
    let n = rsa_public_n(key);
    let e = rsa_public_e(key);
    rsa_public_material(&n, &e)
}

/// Extracts RSA private key material: the modulus and both exponents,
/// canonicalized. Reading them from a parsed RSA key cannot fail.
pub fn extract_rsa_private(key: &Rsa<Private>) -> (r: KeyMaterial)
    ensures
        r is RsaPrivate,
        r.wf(),
{
    let n = rsa_private_n(key);
    let e = rsa_private_e(key);
    let d = rsa_private_d(key);
    rsa_private_material(&n, &e, &d)
}

impl EcOutput {
    /// The JWK record of a parsed EC public key, under the selected
    /// thumbprint hash domain.
    pub fn from_ec_key(key: &EcKey<Public>, domain: HashDomain) -> (r: Result<EcOutput, KeyError>)
        ensures
            match r {
                Ok(o) => exists|km: KeyMaterial|
                    km.wf() && km is EcPublic && #[trigger] jwk_matches(Jwk::Ec(o), km, domain),
                Err(e) => e is ExtractionFailure,
            },
    {
        let km = match extract_ec_public(key) {
            Ok(m) => m,
            Err(e) => {
                return Err(e);
            },
        };
        match jwk_of(&km, domain) {
            Jwk::Ec(o) => Ok(o),
            Jwk::Rsa(_) => unreached(),
        }
    }
}

impl RsaOutput {
    /// The JWK record of a parsed RSA public key.
    pub fn from_rsa_public(key: &Rsa<Public>) -> (r: RsaOutput)
        ensures
            exists|km: KeyMaterial|
                km.wf() && km is RsaPublic && #[trigger] jwk_matches(
                    Jwk::Rsa(r),
                    km,
                    HashDomain::Sha256,
                ),
    {
        let km = extract_rsa_public(key);
        match jwk_of(&km, HashDomain::Sha256) {
            Jwk::Rsa(o) => o,
            Jwk::Ec(_) => unreached(),
        }
    }

    /// The JWK record of a parsed RSA private key: the same fields as for the
    /// public key plus the private exponent, with the thumbprint taken over
    /// all three parameters.
    pub fn from_rsa_private(key: &Rsa<Private>) -> (r: RsaOutput)
        ensures
            exists|km: KeyMaterial|
                km.wf() && km is RsaPrivate && #[trigger] jwk_matches(
                    Jwk::Rsa(r),
                    km,
                    HashDomain::Sha256,
                ),
    {
        let km = extract_rsa_private(key);
        match jwk_of(&km, HashDomain::Sha256) {
            Jwk::Rsa(o) => o,
            Jwk::Ec(_) => unreached(),
        }
    }
}

/// Converts PEM-encoded public key material to its JWK record: parses the
/// PEM, extracts the key's parameters, and assembles the record under the
/// selected EC thumbprint hash domain. Errs with KeyParseFailure when the
/// bytes do not parse as a public key, UnsupportedKeyType when the key is
/// neither EC nor RSA, and ExtractionFailure when a parameter cannot be
/// recovered.
pub fn jwk_from_public_pem(pem: &Vec<u8>, domain: HashDomain) -> (r: Result<Jwk, KeyError>)
    ensures
        match r {
            Ok(j) => exists|km: KeyMaterial| km.wf() && #[trigger] jwk_matches(j, km, domain),
            Err(e) => e is KeyParseFailure || e is UnsupportedKeyType || e is ExtractionFailure,
        },
{
    let key = match parse_public_pem(pem) {
        Ok(k) => k,
        Err(es) => {
            return Err(KeyError::KeyParseFailure(error_text(&es)));
        },
    };
    if let Some(ec) = pkey_ec_public(&key) {
        let o = match EcOutput::from_ec_key(&ec, domain) {
            Ok(o) => o,
            Err(e) => {
                return Err(e);
            },
        };
        return Ok(Jwk::Ec(o));
    }
    if let Some(rsa) = pkey_rsa_public(&key) {
        let o = RsaOutput::from_rsa_public(&rsa);
        proof {
            let km = choose|km: KeyMaterial|
                km.wf() && km is RsaPublic && #[trigger] jwk_matches(
                    Jwk::Rsa(o),
                    km,
                    HashDomain::Sha256,
                );
            assert(jwk_matches(Jwk::Rsa(o), km, domain));
        }
        return Ok(Jwk::Rsa(o));
    }
    Err(KeyError::UnsupportedKeyType)
}

/// Converts PEM-encoded private key material to its JWK record. Only RSA
/// private keys are supported: an EC private key errs with
/// UnsupportedKeyType, as does any other algorithm; bytes that do not parse
/// as a private key err with KeyParseFailure.
pub fn jwk_from_private_pem(pem: &Vec<u8>) -> (r: Result<Jwk, KeyError>)
    ensures
        match r {
            Ok(j) => exists|km: KeyMaterial|
                km.wf() && km is RsaPrivate && #[trigger] jwk_matches(
                    j,
                    km,
                    HashDomain::Sha256,
                ),
            Err(e) => e is KeyParseFailure || e is UnsupportedKeyType,
        },
{
    let key = match parse_private_pem(pem) {
        Ok(k) => k,
        Err(es) => {
            return Err(KeyError::KeyParseFailure(error_text(&es)));
        },
    };
    if pkey_ec_private(&key).is_some() {
        return Err(KeyError::UnsupportedKeyType);
    }
    match pkey_rsa_private(&key) {
        Some(rsa) => Ok(Jwk::Rsa(RsaOutput::from_rsa_private(&rsa))),
        None => Err(KeyError::UnsupportedKeyType),
    }
}

} // verus!
