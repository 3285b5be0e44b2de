use vstd::prelude::*;

verus! {

/// A 256-bit balance as four 64-bit limbs, least significant first.
pub type Balance = [u64; 4];

/// Whether a balance is zero.
pub open spec fn is_zero_balance(b: Balance) -> bool {
    b@[0] == 0 && b@[1] == 0 && b@[2] == 0 && b@[3] == 0
}

/// The spot check on a holder list: every holder still has a nonzero balance
/// in the collection. An empty list passes.
pub fn all_balances_nonzero(balances: &Vec<Balance>) -> (r: bool)
    ensures
        r == forall|i: int| 0 <= i < balances@.len() ==> !is_zero_balance(#[trigger] balances@[i]),
{
    let mut i: usize = 0;
    while i < balances.len()
        invariant
            i <= balances.len(),
            forall|j: int| 0 <= j < i ==> !is_zero_balance(#[trigger] balances@[j]),
        decreases balances.len() - i,
    {
        let b = balances[i];
        if b[0] == 0 && b[1] == 0 && b[2] == 0 && b[3] == 0 {
            return false;
        }
        i = i + 1;
    }
    true
}

} // verus!
