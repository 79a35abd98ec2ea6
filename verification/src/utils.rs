//! Conversions of a stake amount between its full size, as holders' accounts
//! count it, and its size after the burns of collateral withdrawals.

use vstd::prelude::*;
use crate::state::UtilityStakeMint;

verus! {

/// `stake * (total - burnt) / total`, rounded down.
pub open spec fn downscaled(stake: int, total: int, burnt: int) -> int {
    (stake * total - stake * burnt) / total
}

/// `stake * total / (total - burnt)`, rounded down.
pub open spec fn upscaled(stake: int, total: int, burnt: int) -> int {
    (stake * total) / (total - burnt)
}

/// Scales a full stake amount down to the part that the burns leave:
/// `stake * (total - burnt) / total`, rounded down and cut to 64 bits.
pub fn withdrawal_adjustment_downscale(stake: u128, mint_account: UtilityStakeMint) -> (r: u64)
    requires
        mint_account.stakes_total > 0,
        stake * mint_account.stakes_total <= u128::MAX,
        stake * mint_account.stakes_burnt <= stake * mint_account.stakes_total,
    ensures
        r == downscaled(
            stake as int,
            mint_account.stakes_total as int,
            mint_account.stakes_burnt as int,
        ) as u64,
{
    let total = mint_account.stakes_total as u128;
    let burnt = mint_account.stakes_burnt as u128;
    let whole = stake * total;
    let gone = stake * burnt;
    ((whole - gone) / total) as u64
}

/// Scales an amount of unburnt stakes up to its full size:
/// `stake * total / (total - burnt)`, rounded down.
pub fn withdrawal_adjustment_upscale(stake: u128, mint_account: UtilityStakeMint) -> (r: u128)
    requires
        mint_account.stakes_burnt < mint_account.stakes_total,
        stake * mint_account.stakes_total <= u128::MAX,
    ensures
        r == upscaled(
            stake as int,
            mint_account.stakes_total as int,
            mint_account.stakes_burnt as int,
        ),
{
    let total = mint_account.stakes_total as u128;
    let burnt = mint_account.stakes_burnt as u128;
    (stake * total) / (total - burnt)
}

} // verus!
