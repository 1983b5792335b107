//! The keyed hash a candidate must satisfy, and its validation against a
//! challenge and a difficulty. The digest itself comes from the keccak
//! implementation the remote program uses; everything decided from it is
//! verified here.

use vstd::prelude::*;
use crate::compare::{be_value, greater_than};

verus! {

/// The keccak256 digest of challenge, identity and nonce (little-endian),
/// concatenated in that order. A function of its arguments alone.
pub uninterp spec fn keyed_hash(challenge: Seq<u8>, identity: Seq<u8>, nonce: u64) -> Seq<u8>;

/// Relies on solana_program::keccak::hashv: one keccak256 digest, 32 bytes
/// long, over the concatenation of the given slices, depending on those
/// bytes alone.
#[verifier::external_body]
fn keccak_keyed_hash(challenge: &Vec<u8>, identity: &Vec<u8>, nonce: u64) -> (r: Vec<u8>)
    ensures
        r@ == keyed_hash(challenge@, identity@, nonce),
        r@.len() == 32,
{
    let digest = solana_program::keccak::hashv(&[
        challenge.as_slice(),
        identity.as_slice(),
        &nonce.to_le_bytes(),
    ]);
    digest.to_bytes().to_vec()
}

/// Exact byte-for-byte equality of two byte strings.
pub fn bytes_equal(a: &Vec<u8>, b: &Vec<u8>) -> (r: bool)
    ensures
        r == (a@ == b@),
{
    if a.len() != b.len() {
        return false;
    }
    let n = a.len();
    let mut i: usize = 0;
    while i < n
        invariant
            i <= n,
            n == a@.len(),
            n == b@.len(),
            forall|j: int| 0 <= j < i ==> a@[j] == b@[j],
        decreases n - i,
    {
        if a[i] != b[i] {
            return false;
        }
        i = i + 1;
    }
    proof {
        assert(a@ =~= b@);
    }
    true
}

/// What it means for a candidate to be valid proof of work: its hash is the
/// keyed hash of the challenge, this client's identity and the nonce, and
/// that hash, read big-endian, does not exceed the difficulty.
pub open spec fn valid_candidate(
    hash: Seq<u8>,
    challenge: Seq<u8>,
    identity: Seq<u8>,
    nonce: u64,
    difficulty: Seq<u8>,
) -> bool {
    &&& hash == keyed_hash(challenge, identity, nonce)
    &&& be_value(hash) <= be_value(difficulty)
}

/// Recomputes the keyed hash and checks the candidate against it and
/// against the difficulty. True exactly when both checks pass: the hash
/// equals the recomputed one, and it does not exceed the difficulty. Run
/// against a freshly fetched challenge, a false result means the candidate
/// is stale.
pub fn validate_hash(
    hash: &Vec<u8>,
    challenge: &Vec<u8>,
    identity: &Vec<u8>,
    nonce: u64,
    difficulty: &Vec<u8>,
) -> (r: bool)
    requires
        hash@.len() == 32,
        challenge@.len() == 32,
        identity@.len() == 32,
        difficulty@.len() == 32,
    ensures
        r == valid_candidate(hash@, challenge@, identity@, nonce, difficulty@),
{
    let expected = keccak_keyed_hash(challenge, identity, nonce);
    if !bytes_equal(hash, &expected) {
        return false;
    }
    if greater_than(hash, difficulty) {
        return false;
    }
    true
}

/// Sequential nonce search: tries nonces in increasing order until the
/// keyed hash clears the difficulty. Returns the first satisfying nonce
/// with its hash, or `None` when no nonce satisfies the difficulty.
pub fn find_next_hash(
    challenge: &Vec<u8>,
    identity: &Vec<u8>,
    difficulty: &Vec<u8>,
) -> (r: Option<(Vec<u8>, u64)>)
    requires
        challenge@.len() == 32,
        identity@.len() == 32,
        difficulty@.len() == 32,
    ensures
        match r {
            Some(found) => {
                &&& valid_candidate(found.0@, challenge@, identity@, found.1, difficulty@)
                &&& forall|m: u64|
                    m < found.1 ==> be_value(keyed_hash(challenge@, identity@, m)) > be_value(
                        difficulty@,
                    )
            },
            None => forall|m: u64|
                be_value(keyed_hash(challenge@, identity@, m)) > be_value(difficulty@),
        },
{
    let mut nonce: u64 = 0;
    loop
        invariant
            challenge@.len() == 32,
            identity@.len() == 32,
            difficulty@.len() == 32,
            forall|m: u64|
                m < nonce ==> be_value(keyed_hash(challenge@, identity@, m)) > be_value(
                    difficulty@,
                ),
        ensures
            forall|m: u64|
                be_value(keyed_hash(challenge@, identity@, m)) > be_value(difficulty@),
        decreases u64::MAX - nonce,
    {
        let next_hash = keccak_keyed_hash(challenge, identity, nonce);
        if !greater_than(&next_hash, difficulty) {
            return Some((next_hash, nonce));
        }
        if nonce == u64::MAX {
            break;
        }
        nonce = nonce + 1;
    }
    None
}

} // verus!
