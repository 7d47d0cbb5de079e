use sha2::Digest;
use vstd::prelude::*;

verus! {

/// Width of the checksum field in a message header.
pub const CHECKSUM_SIZE: usize = 4;

/// The SHA-256 digest of a byte sequence.
pub uninterp spec fn sha256_of(data: Seq<u8>) -> Seq<u8>;

/// Relies on sha2's `Sha256::digest`: the SHA-256 digest of `data`, 32
/// bytes, which depends on `data` alone.
#[verifier::external_body]
fn sha256(data: &[u8]) -> (r: [u8; 32])
    ensures
        r@ == sha256_of(data@),
{
    sha2::Sha256::digest(data).into()
}

/// The checksum of a payload: the first four bytes of its double SHA-256.
pub open spec fn checksum_of(data: Seq<u8>) -> Seq<u8> {
    Seq::new(CHECKSUM_SIZE as nat, |i: int| sha256_of(sha256_of(data))[i])
}

/// The first four bytes of a digest.
pub fn digest_prefix(digest: &[u8; 32]) -> (r: [u8; 4])
    ensures
        r@ == digest@.subrange(0, CHECKSUM_SIZE as int),
{
    let r: [u8; 4] = [digest[0], digest[1], digest[2], digest[3]];
    assert(r@ =~= digest@.subrange(0, CHECKSUM_SIZE as int));
    r
}

/// The checksum of `data`: the first four bytes of SHA-256 applied twice.
/// It is a function of `data` alone.
pub fn checksum(data: &[u8]) -> (r: [u8; 4])
    ensures
        r@ == checksum_of(data@),
{
    let first = sha256(data);
    let second = sha256(first.as_slice());
    let r = digest_prefix(&second);
    assert(r@ =~= checksum_of(data@));
    r
}

} // verus!
