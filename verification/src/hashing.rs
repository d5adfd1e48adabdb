//! The hash engine: double SHA-256 over arbitrary bytes.

use sha2::Digest;
use vstd::prelude::*;

verus! {

/// The SHA-256 digest of a byte sequence, named but not written out: the
/// result of `sha2::Sha256::digest` depends on the input bytes alone.
pub uninterp spec fn sha256_of(data: Seq<u8>) -> Seq<u8>;

/// The double hash: SHA-256 applied twice.
pub open spec fn double_sha256_of(data: Seq<u8>) -> Seq<u8> {
    sha256_of(sha256_of(data))
}

/// Relies on `sha2::Sha256::digest`: a pure function of the input bytes,
/// returning a 32-byte digest.
#[verifier::external_body]
fn sha256(data: &[u8]) -> (r: Vec<u8>)
    ensures
        r@ == sha256_of(data@),
        r@.len() == 32,
{
    sha2::Sha256::digest(data).to_vec()
}

/// Compute SHA-256d, the double SHA-256 digest of `data`.
pub fn sha256d(data: &[u8]) -> (r: Vec<u8>)
    ensures
        r@ == double_sha256_of(data@),
        r@.len() == 32,
{
    let first = sha256(data);
    sha256(first.as_slice())
}

/// The double hash is deterministic: it is a function of the input bytes
/// alone, so equal inputs always yield the equal digest.  (`sha256d`'s
/// contract ties its result to this function of its input, so two calls on
/// equal byte sequences return equal digests.)
pub proof fn lemma_double_sha256_deterministic(a: Seq<u8>, b: Seq<u8>)
    requires
        a == b,
    ensures
        double_sha256_of(a) == double_sha256_of(b),
{
}

} // verus!
