mod base64url;
mod bytes;
mod curve;
mod error;
mod extract;
mod hash;
mod jwk;
mod material;
mod thumbprint;

pub use base64url::base64url_encode;
pub use bytes::canonical_bytes;
pub use curve::{crv_name, CurveId};
pub use error::KeyError;
pub use extract::{
    extract_ec_public, extract_rsa_private, extract_rsa_public, jwk_from_private_pem,
    jwk_from_public_pem,
};
pub use hash::HashDomain;
pub use jwk::{jwk_of, EcOutput, Jwk, RsaOutput};
pub use material::{ec_public_material, rsa_private_material, rsa_public_material, KeyMaterial};
pub use thumbprint::thumbprint_kid;
