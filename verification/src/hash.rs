use vstd::prelude::*;

verus! {

/// The hash that derives a thumbprint. Two domains are in deployed use for EC
/// keys — legacy 20-byte SHA-1 identifiers and 32-byte SHA-256 identifiers —
/// so the choice is explicit configuration rather than hard-coded.
#[derive(PartialEq, Eq, Structural, Clone, Copy, Debug)]
pub enum HashDomain {
    Sha1,
    Sha256,
}

/// The digest SHA-1 assigns to a byte string.
pub uninterp spec fn sha1_of(s: Seq<u8>) -> Seq<u8>;

/// The digest SHA-256 assigns to a byte string.
pub uninterp spec fn sha256_of(s: Seq<u8>) -> Seq<u8>;

/// Relies on openssl::sha::sha1: the 20-byte SHA-1 digest of the input,
/// a function of the input bytes alone.
#[verifier::external_body]
pub(crate) fn sha1_bytes(data: &Vec<u8>) -> (r: Vec<u8>)
    ensures
        r@ == sha1_of(data@),
        r@.len() == 20,
{
    openssl::sha::sha1(data.as_slice()).to_vec()
}

/// Relies on openssl::sha::sha256: the 32-byte SHA-256 digest of the input,
/// a function of the input bytes alone.
#[verifier::external_body]
pub(crate) fn sha256_bytes(data: &Vec<u8>) -> (r: Vec<u8>)
    ensures
        r@ == sha256_of(data@),
        r@.len() == 32,
{
    openssl::sha::sha256(data.as_slice()).to_vec()
}

} // verus!
