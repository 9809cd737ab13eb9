use vstd::prelude::*;
use vstd::slice::slice_to_vec;
use sha2::{Digest, Sha256};

verus! {

/// The subaccount of a principal: 32 bytes.
pub type Subaccount = [u8; 32];

/// The byte that is hashed after the bytes of a principal.
pub const _NONCE: u8 = 1;

/// The SHA-256 digest of `data`.
pub uninterp spec fn spec_sha256(data: Seq<u8>) -> Seq<u8>;

/// `sha2::Sha256::digest` computes the SHA-256 hash of the bytes it is given;
/// the 32 bytes of its output are handed on as they are. The digest is a function
/// of the data alone.
#[verifier::external_body]
fn _sha256(data: &Vec<u8>) -> (digest: [u8; 32])
    ensures
        digest@ == spec_sha256(data@),
{
    let hash = Sha256::digest(data.as_slice());
    let mut digest = [0u8; 32];
    digest.copy_from_slice(&hash[..32]);
    digest
}

/// The subaccount of a principal as a digest: that of the bytes of the principal
/// followed by the nonce.
pub open spec fn spec_to_subaccount(principal: Seq<u8>) -> Seq<u8> {
    spec_sha256(principal.push(_NONCE))
}

/// The subaccount under which the market and the vault know a principal.
pub fn _to_subaccount(principal: &[u8]) -> (subaccount: Subaccount)
    ensures
        subaccount@ == spec_to_subaccount(principal@),
{
    let mut data: Vec<u8> = slice_to_vec(principal);
    data.push(_NONCE);
    _sha256(&data)
}

} // verus!
