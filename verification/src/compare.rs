//! Exact comparison of fixed-width byte strings read as big-endian unsigned
//! integers. The remote program compares candidate hashes against the
//! difficulty this way, so the client must match it bit for bit.

use vstd::prelude::*;

verus! {

/// `256^n`: the weight of the leading byte of an `n + 1`-byte big-endian
/// string.
pub open spec fn pow256(n: nat) -> nat
    decreases n,
{
    if n == 0 {
        1
    } else {
        256 * pow256((n - 1) as nat)
    }
}

/// The unsigned integer a byte string denotes when read big-endian.
pub open spec fn be_value(s: Seq<u8>) -> nat
    decreases s.len(),
{
    if s.len() == 0 {
        0
    } else {
        (s.first() as nat) * pow256((s.len() - 1) as nat) + be_value(s.drop_first())
    }
}

proof fn lemma_pow256_pos(n: nat)
    ensures
        pow256(n) >= 1,
    decreases n,
{
    if n > 0 {
        lemma_pow256_pos((n - 1) as nat);
    }
}

proof fn lemma_be_value_bound(s: Seq<u8>)
    ensures
        be_value(s) < pow256(s.len()),
    decreases s.len(),
{
    if s.len() == 0 {
    } else {
        let p = pow256((s.len() - 1) as nat);
        let f = s.first() as nat;
        lemma_be_value_bound(s.drop_first());
        lemma_pow256_pos((s.len() - 1) as nat);
        assert((f + 1) * p <= 256 * p) by (nonlinear_arith)
            requires
                f <= 255,
                p >= 1,
        ;
        assert(f * p + p == (f + 1) * p) by (nonlinear_arith);
    }
}

/// If two equally long byte strings agree on every byte before position `i`
/// and differ at `i`, the one with the smaller byte there denotes the
/// smaller integer.
proof fn lemma_be_first_difference(a: Seq<u8>, b: Seq<u8>, i: int)
    requires
        a.len() == b.len(),
        0 <= i < a.len(),
        forall|j: int| 0 <= j < i ==> a[j] == b[j],
        a[i] < b[i],
    ensures
        be_value(a) < be_value(b),
    decreases i,
{
    let p = pow256((a.len() - 1) as nat);
    if i == 0 {
        let fa = a.first() as nat;
        let fb = b.first() as nat;
        lemma_be_value_bound(a.drop_first());
        assert((fa + 1) * p <= fb * p) by (nonlinear_arith)
            requires
                fa + 1 <= fb,
        ;
        assert(fa * p + p == (fa + 1) * p) by (nonlinear_arith);
    } else {
        assert(forall|j: int| 0 <= j < i - 1 ==> a.drop_first()[j] == b.drop_first()[j]);
        assert(a.drop_first()[i - 1] == a[i]);
        lemma_be_first_difference(a.drop_first(), b.drop_first(), i - 1);
    }
}

/// Whether `a <= b` when both are read as big-endian unsigned integers of the
/// same width. Exact and full-width: no truncation, no approximation.
pub fn less_or_equal(a: &Vec<u8>, b: &Vec<u8>) -> (r: bool)
    requires
        a@.len() == b@.len(),
    ensures
        r == (be_value(a@) <= be_value(b@)),
{
    let n = a.len();
    let mut i: usize = 0;
    while i < n
        invariant
            i <= n,
            n == a@.len(),
            n == b@.len(),
            forall|j: int| 0 <= j < i ==> a@[j] == b@[j],
        decreases n - i,
    {
        if a[i] < b[i] {
            proof {
                lemma_be_first_difference(a@, b@, i as int);
            }
            return true;
        }
        if a[i] > b[i] {
            proof {
                lemma_be_first_difference(b@, a@, i as int);
            }
            return false;
        }
        i = i + 1;
    }
    proof {
        assert(a@ =~= b@);
    }
    true
}

/// Whether `a > b` when both are read as big-endian unsigned integers of the
/// same width.
pub fn greater_than(a: &Vec<u8>, b: &Vec<u8>) -> (r: bool)
    requires
        a@.len() == b@.len(),
    ensures
        r == (be_value(a@) > be_value(b@)),
{
    !less_or_equal(a, b)
}

} // verus!
