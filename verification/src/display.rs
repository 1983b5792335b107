//! Presentation of a fetched token balance: the amount string the ledger
//! reported, or a zero amount when no token account exists.

use vstd::prelude::*;

verus! {

/// The balance string shown for an optionally existing token account: the
/// reported amount when there is one, `"0.00"` otherwise.
pub fn display_balance(amount: Option<String>) -> (r: String)
    ensures
        match amount {
            Some(s) => r@ == s@,
            None => r@ == "0.00"@,
        },
{
    match amount {
        Some(s) => s,
        None => "0.00".to_string(),
    }
}

} // verus!
