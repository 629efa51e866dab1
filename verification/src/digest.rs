//! Content addressing of task payloads.
//!
//! A digest is a multihash: one byte that names the hash function, one byte
//! that gives the length of the hash, then the hash itself. The hash function
//! is SHA2-256, so a digest is 34 bytes long.

use vstd::prelude::*;

verus! {

/// Multihash code of SHA2-256.
pub const SHA2_256_CODE: u8 = 0x12;

/// Length in bytes of a SHA2-256 hash.
pub const SHA2_256_LEN: u8 = 32;

/// The multihash that `multihash::encode` yields for a payload under
/// SHA2-256. It depends on the payload alone.
pub uninterp spec fn sha2_256_multihash(data: Seq<u8>) -> Seq<u8>;

/// The header of `digest` says "SHA2-256, 32 bytes", and that many bytes
/// follow it.
pub open spec fn names_sha2_256(digest: Seq<u8>) -> bool {
    &&& digest.len() == 2 + SHA2_256_LEN
    &&& digest[0] == SHA2_256_CODE
    &&& digest[1] == SHA2_256_LEN
}

/// `multihash::Error`, which the encoder's signature names. Nothing reads it.
#[verifier::external_type_specification]
#[verifier::external_body]
pub struct ExMultihashError(multihash::Error);

/// Calls `multihash::encode` with `Hash::SHA2256`.
///
/// Trusted: the encoder supports SHA2-256, so the call succeeds; what it
/// returns is a function of the payload alone; the first byte is the code of
/// SHA2-256, the second is 32, and 32 bytes follow.
#[verifier::external_body]
fn encode_sha2_256(data: &[u8]) -> (encoded: Result<Vec<u8>, multihash::Error>)
    ensures
        encoded is Ok,
        encoded matches Ok(bytes) ==> bytes@ == sha2_256_multihash(data@) && names_sha2_256(bytes@),
{
    multihash::encode(multihash::Hash::SHA2256, data)
}

/// The content address of `data`.
///
/// Total over byte strings, and a function of the bytes alone: equal payloads
/// have equal digests.
pub fn digest(data: &[u8]) -> (out: Vec<u8>)
    ensures
        out@ == sha2_256_multihash(data@),
        names_sha2_256(out@),
{
    match encode_sha2_256(data) {
        Ok(bytes) => bytes,
        // The encoder has no failure for SHA2-256.
        Err(_) => Vec::new(),
    }
}

/// Whether two byte strings are the same.
pub fn bytes_equal(a: &[u8], b: &[u8]) -> (same: bool)
    ensures
        same == (a@ == b@),
{
    if a.len() != b.len() {
        return false;
    }
    let mut i: usize = 0;
    while i < a.len()
        invariant
            a@.len() == b@.len(),
            i <= a@.len(),
            forall|k: int| 0 <= k < i ==> a@[k] == b@[k],
        decreases a@.len() - i,
    {
        if a[i] != b[i] {
            return false;
        }
        i = i + 1;
    }
    assert(a@ =~= b@);
    true
}

/// Equal payloads have equal content addresses.
pub proof fn lemma_digest_is_deterministic(first: Seq<u8>, second: Seq<u8>)
    requires
        first == second,
    ensures
        sha2_256_multihash(first) == sha2_256_multihash(second),
{
}

/// Two different payloads that share one content address.
pub open spec fn collide(first: Seq<u8>, second: Seq<u8>) -> bool {
    first != second && sha2_256_multihash(first) == sha2_256_multihash(second)
}

/// Content addresses tell payloads apart as far as the hash function does:
/// two payloads have one address exactly if they are equal or collide.
pub proof fn lemma_digest_tells_payloads_apart(first: Seq<u8>, second: Seq<u8>)
    ensures
        sha2_256_multihash(first) == sha2_256_multihash(second) <==> first == second || collide(
            first,
            second,
        ),
{
}

} // verus!
