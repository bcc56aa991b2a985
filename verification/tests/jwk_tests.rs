use base64ct::{Base64UrlUnpadded, Encoding};
use pem_params::{
    ec_public_material, jwk_of, rsa_private_material, rsa_public_material, HashDomain, Jwk,
    KeyError, KeyMaterial,
};

const P256_NID: i32 = 415;

fn rsa_record(km: &KeyMaterial) -> pem_params::RsaOutput {
    match jwk_of(km, HashDomain::Sha256) {
        Jwk::Rsa(o) => o,
        Jwk::Ec(_) => panic!("expected an RSA record"),
    }
}

fn ec_record(km: &KeyMaterial, domain: HashDomain) -> pem_params::EcOutput {
    match jwk_of(km, domain) {
        Jwk::Ec(o) => o,
        Jwk::Rsa(_) => panic!("expected an EC record"),
    }
}

#[test]
fn rsa_public_scenario() {
    // A test modulus on the scale of a few bytes, with e = 65537.
    let n: Vec<u8> = vec![0x01, 0x00, 0x01, 0x23, 0x45, 0x67, 0x89];
    let e: Vec<u8> = vec![0x01, 0x00, 0x01];
    let km = rsa_public_material(&n, &e);
    let o = rsa_record(&km);
    assert_eq!(o.kty, "RSA");
    assert_eq!(o.alg, "RS256");
    assert!(o.d.is_none());
    assert_eq!(o.n, Base64UrlUnpadded::encode_string(&n));
    assert_eq!(o.e, Base64UrlUnpadded::encode_string(&e));
    let mut cat = n.clone();
    cat.extend_from_slice(&e);
    let expected_kid = Base64UrlUnpadded::encode_string(&openssl::sha::sha256(&cat));
    assert_eq!(o.kid, expected_kid);
}

#[test]
fn rsa_private_scenario() {
    let n: Vec<u8> = vec![0x01, 0x00, 0x01, 0x23, 0x45, 0x67, 0x89];
    let e: Vec<u8> = vec![0x01, 0x00, 0x01];
    let d: Vec<u8> = vec![0x0f, 0xed, 0xcb, 0xa9];
    let km_pub = rsa_public_material(&n, &e);
    let km_priv = rsa_private_material(&n, &e, &d);
    let pub_o = rsa_record(&km_pub);
    let priv_o = rsa_record(&km_priv);
    assert_eq!(priv_o.d.as_deref(), Some(Base64UrlUnpadded::encode_string(&d).as_str()));
    assert_eq!(priv_o.n, pub_o.n);
    assert_eq!(priv_o.e, pub_o.e);
    let mut cat = n.clone();
    cat.extend_from_slice(&e);
    cat.extend_from_slice(&d);
    let expected_kid = Base64UrlUnpadded::encode_string(&openssl::sha::sha256(&cat));
    assert_eq!(priv_o.kid, expected_kid);
    // The private thumbprint covers d as well, so the kid changes.
    assert_ne!(priv_o.kid, pub_o.kid);
}

#[test]
fn rsa_kid_matches_published_sha256_vector() {
    // canonical(n) followed by canonical(e) spells "abc", whose SHA-256
    // digest is the published test vector.
    let n: Vec<u8> = vec![0x61];
    let e: Vec<u8> = vec![0x62, 0x63];
    let km = rsa_public_material(&n, &e);
    let o = rsa_record(&km);
    let digest: [u8; 32] = [
        0xba, 0x78, 0x16, 0xbf, 0x8f, 0x01, 0xcf, 0xea, 0x41, 0x41, 0x40, 0xde, 0x5d, 0xae, 0x22,
        0x23, 0xb0, 0x03, 0x61, 0xa3, 0x96, 0x17, 0x7a, 0x9c, 0xb4, 0x10, 0xff, 0x61, 0xf2, 0x00,
        0x15, 0xad,
    ];
    assert_eq!(o.kid, Base64UrlUnpadded::encode_string(&digest));
}

#[test]
fn rsa_material_canonicalizes_leading_zeros() {
    let n: Vec<u8> = vec![0x00, 0x00, 0x9a, 0xbc];
    let e: Vec<u8> = vec![0x01, 0x00, 0x01];
    let km = rsa_public_material(&n, &e);
    let o = rsa_record(&km);
    assert_eq!(o.n, Base64UrlUnpadded::encode_string(&[0x9a, 0xbc]));
    let mut cat: Vec<u8> = vec![0x9a, 0xbc];
    cat.extend_from_slice(&e);
    let expected_kid = Base64UrlUnpadded::encode_string(&openssl::sha::sha256(&cat));
    assert_eq!(o.kid, expected_kid);
}

fn fixed_p256_coords() -> (Vec<u8>, Vec<u8>) {
    let x: Vec<u8> = (1u8..=32).collect();
    let y: Vec<u8> = (101u8..=132).collect();
    (x, y)
}

#[test]
fn ec_p256_scenario_sha1_domain() {
    let (x, y) = fixed_p256_coords();
    let km = ec_public_material(P256_NID, &x, &y).unwrap();
    let o = ec_record(&km, HashDomain::Sha1);
    assert_eq!(o.kty, "EC");
    assert_eq!(o.alg, "ES256");
    assert_eq!(o.crv, "P-256");
    assert!(o.d.is_none());
    assert_eq!(o.x, Base64UrlUnpadded::encode_string(&x));
    assert_eq!(o.y, Base64UrlUnpadded::encode_string(&y));
    let mut point: Vec<u8> = vec![0x04];
    point.extend_from_slice(&x);
    point.extend_from_slice(&y);
    let expected_kid = Base64UrlUnpadded::encode_string(&openssl::sha::sha1(&point));
    assert_eq!(o.kid, expected_kid);
}

#[test]
fn ec_p256_scenario_sha256_domain() {
    let (x, y) = fixed_p256_coords();
    let km = ec_public_material(P256_NID, &x, &y).unwrap();
    let o = ec_record(&km, HashDomain::Sha256);
    let mut point: Vec<u8> = vec![0x04];
    point.extend_from_slice(&x);
    point.extend_from_slice(&y);
    let expected_kid = Base64UrlUnpadded::encode_string(&openssl::sha::sha256(&point));
    assert_eq!(o.kid, expected_kid);
}

#[test]
fn ec_point_pads_short_coordinates_to_field_width() {
    // A coordinate below 2^248 keeps leading zero bytes in the uncompressed
    // point encoding, though its own JWK field is minimal.
    let x: Vec<u8> = vec![0x7f];
    let y: Vec<u8> = vec![0x42, 0x43];
    let km = ec_public_material(P256_NID, &x, &y).unwrap();
    let o = ec_record(&km, HashDomain::Sha256);
    assert_eq!(o.x, Base64UrlUnpadded::encode_string(&x));
    let mut point: Vec<u8> = vec![0x04];
    point.extend_from_slice(&[0u8; 31]);
    point.push(0x7f);
    point.extend_from_slice(&[0u8; 30]);
    point.extend_from_slice(&[0x42, 0x43]);
    assert_eq!(point.len(), 65);
    let expected_kid = Base64UrlUnpadded::encode_string(&openssl::sha::sha256(&point));
    assert_eq!(o.kid, expected_kid);
}

#[test]
fn ec_unknown_curve_still_yields_a_record() {
    let x: Vec<u8> = vec![0x11, 0x22, 0x33];
    let y: Vec<u8> = vec![0x44, 0x55];
    let km = ec_public_material(999, &x, &y).unwrap();
    let o = ec_record(&km, HashDomain::Sha1);
    assert_eq!(o.crv, "Unknown");
    assert_eq!(o.kty, "EC");
    assert_eq!(o.alg, "ES256");
    assert_eq!(o.x, Base64UrlUnpadded::encode_string(&x));
    assert_eq!(o.y, Base64UrlUnpadded::encode_string(&y));
    // The wider coordinate sets the padding width for an unrecognized curve.
    let point: Vec<u8> = vec![0x04, 0x11, 0x22, 0x33, 0x00, 0x44, 0x55];
    let expected_kid = Base64UrlUnpadded::encode_string(&openssl::sha::sha1(&point));
    assert_eq!(o.kid, expected_kid);
}

#[test]
fn ec_coordinate_wider_than_field_is_rejected() {
    let x: Vec<u8> = (1u8..=33).collect();
    let y: Vec<u8> = vec![0x01];
    match ec_public_material(P256_NID, &x, &y) {
        Err(KeyError::ExtractionFailure(_)) => {},
        _ => panic!("expected an extraction failure"),
    }
}

#[test]
fn kid_decodes_to_digest_length() {
    let (x, y) = fixed_p256_coords();
    let km = ec_public_material(P256_NID, &x, &y).unwrap();
    let sha1_kid = ec_record(&km, HashDomain::Sha1).kid;
    assert_eq!(sha1_kid.len(), 27);
    assert_eq!(Base64UrlUnpadded::decode_vec(&sha1_kid).unwrap().len(), 20);
    let sha256_kid = ec_record(&km, HashDomain::Sha256).kid;
    assert_eq!(sha256_kid.len(), 43);
    assert_eq!(Base64UrlUnpadded::decode_vec(&sha256_kid).unwrap().len(), 32);
    let n: Vec<u8> = vec![0x09, 0x87];
    let e: Vec<u8> = vec![0x01, 0x00, 0x01];
    let rsa_kid = rsa_record(&rsa_public_material(&n, &e)).kid;
    assert_eq!(rsa_kid.len(), 43);
    assert_eq!(Base64UrlUnpadded::decode_vec(&rsa_kid).unwrap().len(), 32);
}

#[test]
fn ec_material_canonicalizes_leading_zeros() {
    let x: Vec<u8> = vec![0x00, 0x00, 0x07];
    let y: Vec<u8> = vec![0x09];
    let km = ec_public_material(P256_NID, &x, &y).unwrap();
    let o = ec_record(&km, HashDomain::Sha256);
    assert_eq!(o.x, Base64UrlUnpadded::encode_string(&[0x07]));
    assert_eq!(o.y, Base64UrlUnpadded::encode_string(&[0x09]));
    let mut point: Vec<u8> = vec![0x04];
    point.extend_from_slice(&[0u8; 31]);
    point.push(0x07);
    point.extend_from_slice(&[0u8; 31]);
    point.push(0x09);
    let expected_kid = Base64UrlUnpadded::encode_string(&openssl::sha::sha256(&point));
    assert_eq!(o.kid, expected_kid);
}

#[test]
fn curve_name_resolution() {
    assert_eq!(pem_params::crv_name(&pem_params::CurveId::P256), "P-256");
    assert_eq!(pem_params::crv_name(&pem_params::CurveId::Other(714)), "Unknown");
}

#[test]
fn thumbprint_kid_matches_record_kid() {
    let n: Vec<u8> = vec![0x0a, 0x0b, 0x0c];
    let e: Vec<u8> = vec![0x01, 0x00, 0x01];
    let km = rsa_public_material(&n, &e);
    let kid = pem_params::thumbprint_kid(&km, HashDomain::Sha256);
    assert_eq!(kid, rsa_record(&km).kid);
    let (x, y) = fixed_p256_coords();
    let km_ec = ec_public_material(P256_NID, &x, &y).unwrap();
    let kid_ec = pem_params::thumbprint_kid(&km_ec, HashDomain::Sha1);
    assert_eq!(kid_ec, ec_record(&km_ec, HashDomain::Sha1).kid);
}

#[test]
fn repeated_runs_are_byte_identical() {
    let n: Vec<u8> = vec![0x31, 0x41, 0x59, 0x26];
    let e: Vec<u8> = vec![0x01, 0x00, 0x01];
    let d: Vec<u8> = vec![0x27, 0x18, 0x28];
    let a = rsa_record(&rsa_private_material(&n, &e, &d));
    let b = rsa_record(&rsa_private_material(&n, &e, &d));
    assert_eq!(a.d, b.d);
    assert_eq!(a.n, b.n);
    assert_eq!(a.e, b.e);
    assert_eq!(a.kid, b.kid);
    assert_eq!(a.kty, b.kty);
    assert_eq!(a.alg, b.alg);
    let (x, y) = fixed_p256_coords();
    let c = ec_record(&ec_public_material(P256_NID, &x, &y).unwrap(), HashDomain::Sha1);
    let f = ec_record(&ec_public_material(P256_NID, &x, &y).unwrap(), HashDomain::Sha1);
    assert_eq!(c.x, f.x);
    assert_eq!(c.y, f.y);
    assert_eq!(c.kid, f.kid);
    assert_eq!(c.crv, f.crv);
}
