//! The one source of randomness the client uses: uniform draws from a
//! half-open range, for bus selection and epoch-reset arbitration.

use vstd::prelude::*;

verus! {

/// Relies on rand::Rng::gen_range over rand::thread_rng: returns a value
/// drawn uniformly from `[0, bound)`. Nothing more is assumed of the draw;
/// two calls on the same bound may differ.
#[verifier::external_body]
pub(crate) fn random_below(bound: u64) -> (r: u64)
    requires
        0 < bound,
    ensures
        r < bound,
{
    rand::Rng::gen_range(&mut rand::thread_rng(), 0..bound)
}

} // verus!
