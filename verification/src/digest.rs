//! SHA-256, and the eight-byte operation discriminators taken from it.

use sha2::Digest;
use sha2::Sha256;
use vstd::string::StringSliceAdditionalSpecFns;
use vstd::prelude::*;

verus! {

/// The SHA-256 digest of a byte string.
pub uninterp spec fn sha256(data: Seq<u8>) -> Seq<u8>;

/// The discriminator of the operation whose full name has the bytes `name`:
/// the first eight bytes of the name's SHA-256 digest.
pub open spec fn discriminator_of(name: Seq<u8>) -> Seq<u8> {
    sha256(name).subrange(0, 8)
}

/// Computes a SHA-256 digest with `sha2::Sha256` (`new`, `update`,
/// `finalize`). Trusted: the 32 bytes returned are the digest of `data`,
/// which depends on `data` alone.
#[verifier::external_body]
pub(crate) fn sha256_digest(data: &[u8]) -> (r: [u8; 32])
    ensures
        r@ == sha256(data@),
{
    let mut hasher = Sha256::new();
    hasher.update(data);
    hasher.finalize().into()
}

/// Cuts a digest down to its first eight bytes.
pub fn discriminator_from_digest(digest: &[u8; 32]) -> (r: [u8; 8])
    ensures
        r@ == digest@.subrange(0, 8),
{
    let mut out: [u8; 8] = [0u8; 8];
    let mut i: usize = 0;
    while i < 8
        invariant
            i <= 8,
            forall|j: int| 0 <= j < i ==> out@[j] == digest@[j],
        decreases 8 - i,
    {
        out[i] = digest[i];
        i += 1;
    }
    assert(out@ =~= digest@.subrange(0, 8));
    out
}

/// The discriminator for a full operation name such as `global:make_offer`.
pub fn anchor_discriminator(name: &str) -> (r: [u8; 8])
    ensures
        r@ == discriminator_of(name.spec_bytes()),
{
    let digest = sha256_digest(name.as_bytes());
    discriminator_from_digest(&digest)
}

} // verus!
