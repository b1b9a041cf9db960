//! Overflow-detecting arithmetic on balances.

use vstd::prelude::*;
use crate::types::Balance;

verus! {

/// `num_traits::CheckedAdd::checked_add` on two balances. The contract
/// claims what that method documents: the sum, or `None` where the sum
/// does not fit the type.
#[verifier::external_body]
pub(crate) fn checked_add(a: Balance, b: Balance) -> (sum: Option<Balance>)
    ensures
        a + b <= Balance::MAX ==> sum == Some((a + b) as Balance),
        a + b > Balance::MAX ==> sum.is_none(),
{
    num_traits::CheckedAdd::checked_add(&a, &b)
}

/// `num_traits::CheckedSub::checked_sub` on two balances. The contract
/// claims what that method documents: the difference, or `None` where
/// it would be negative.
#[verifier::external_body]
pub(crate) fn checked_sub(a: Balance, b: Balance) -> (difference: Option<Balance>)
    ensures
        a >= b ==> difference == Some((a - b) as Balance),
        a < b ==> difference.is_none(),
{
    num_traits::CheckedSub::checked_sub(&a, &b)
}

} // verus!
