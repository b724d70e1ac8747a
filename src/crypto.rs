use vstd::prelude::*;

verus! {

/// The SHA-256 digest of `preimage`.
pub uninterp spec fn sha256_of(preimage: Seq<u8>) -> Seq<u8>;

/// Relies on ring::digest::digest with ring::digest::SHA256: the 32-byte
/// SHA-256 digest of the input, which depends on the input alone.
#[verifier::external_body]
pub(crate) fn sha256(preimage: &[u8; 32]) -> (r: [u8; 32])
    ensures
        r@ == sha256_of(preimage@),
{
    let d = ring::digest::digest(&ring::digest::SHA256, &preimage[..]);
    let mut out = [0u8; 32];
    out.copy_from_slice(d.as_ref());
    out
}

/// Whether `digest` equals `condition`, byte for byte. The condition is
/// public, so the comparison need not take constant time.
pub fn condition_matches(digest: &[u8; 32], condition: &[u8; 32]) -> (r: bool)
    ensures
        r == (digest@ == condition@),
{
    let mut i: usize = 0;
    while i < 32
        invariant
            i <= 32,
            digest@.len() == 32,
            condition@.len() == 32,
            forall|j: int| 0 <= j < i ==> digest@[j] == condition@[j],
        decreases 32 - i,
    {
        if digest[i] != condition[i] {
            assert(digest@[i as int] != condition@[i as int]);
            return false;
        }
        i = i + 1;
    }
    assert(digest@ =~= condition@);
    true
}

} // verus!
