//! Selling stakes back to the curve for lamports out of the collateral.

use vstd::prelude::*;
use crate::errors::ContractError;
use crate::math::K_DIV;
use crate::state::{UtilityStakeAccount, UtilityStakeMint};

verus! {

/// The sold stakes scaled down by the burns: `amount_in - amount_in * burnt / total`.
pub open spec fn adjusted_sale(mint: UtilityStakeMint, amount_in: u64) -> int {
    amount_in - (amount_in * mint.stakes_burnt) / (mint.stakes_total as int)
}

/// The unburnt stakes of the curve.
pub open spec fn adjusted_supply(mint: UtilityStakeMint) -> int {
    mint.stakes_total - mint.stakes_burnt
}

/// The collateral that the curve `collateral = k * stakes^2` asks for the
/// unburnt stakes that remain after the sale, rounded down.
pub open spec fn collateral_after_sale(mint: UtilityStakeMint, amount_in: u64) -> int {
    let rest = adjusted_supply(mint) - adjusted_sale(mint, amount_in);
    (rest * rest) / (K_DIV as int)
}

/// The lamports paid for the sale: the collateral less what the curve asks
/// for the rest (that amount cut to 64 bits).
pub open spec fn sale_price(mint: UtilityStakeMint, amount_in: u64) -> int {
    mint.collateral - (collateral_after_sale(mint, amount_in) as u64)
}

/// The curve after a successful sale: the total less the stakes sold, the
/// collateral less the price.
pub open spec fn after_sale(mint: UtilityStakeMint, amount_in: u64) -> UtilityStakeMint {
    UtilityStakeMint {
        stakes_total: (mint.stakes_total - amount_in) as u64,
        collateral: (mint.collateral - sale_price(mint, amount_in)) as u64,
        ..mint
    }
}

/// The error with which a sale is refused, if any.
pub open spec fn sell_error(
    mint: UtilityStakeMint,
    stake: UtilityStakeAccount,
    amount_in: u64,
    min_output_amount: u64,
) -> Option<ContractError> {
    if stake.amount < amount_in {
        Some(ContractError::InsufficientTokenBalance)
    } else if adjusted_sale(mint, amount_in) > adjusted_supply(mint) {
        Some(ContractError::InsufficientCollateralInContract)
    } else if sale_price(mint, amount_in) < min_output_amount {
        Some(ContractError::PriceChanged)
    } else if mint.collateral < sale_price(mint, amount_in) {
        Some(ContractError::InsufficientCollateralInContract)
    } else {
        None
    }
}

/// The sale runs to its outcome without an arithmetic overflow: once the
/// seller's balance is checked, `amount_in * burnt` fits in 64 bits, the total
/// is not zero, no more is burnt than issued, the collateral covers what the
/// curve asks for the rest, and a successful sale sells no more than the total.
pub open spec fn sell_completes(
    mint: UtilityStakeMint,
    stake: UtilityStakeAccount,
    amount_in: u64,
    min_output_amount: u64,
) -> bool {
    stake.amount >= amount_in ==> {
        &&& amount_in * mint.stakes_burnt <= u64::MAX
        &&& mint.stakes_total > 0
        &&& (amount_in * mint.stakes_burnt) / (mint.stakes_total as int) <= amount_in
        &&& mint.stakes_burnt <= mint.stakes_total
        &&& adjusted_sale(mint, amount_in) <= adjusted_supply(mint) ==> {
            &&& (collateral_after_sale(mint, amount_in) as u64) <= mint.collateral
            &&& sale_price(mint, amount_in) >= min_output_amount ==> amount_in
                <= mint.stakes_total
        }
    }
}

/// The sold stakes scaled down by the burns, as the sale computes them.
fn adjusted_sale_amount(mint: &UtilityStakeMint, amount_in: u64) -> (a: u64)
    requires
        amount_in * mint.stakes_burnt <= u64::MAX,
        mint.stakes_total > 0,
        (amount_in * mint.stakes_burnt) / (mint.stakes_total as int) <= amount_in,
    ensures
        a == adjusted_sale(*mint, amount_in),
{
    amount_in - (amount_in * mint.stakes_burnt) / mint.stakes_total
}

/// What the curve asks for `rest` unburnt stakes, as the sale computes it.
fn curve_collateral(rest: u64) -> (c: u128)
    ensures
        c == (rest * rest) / (K_DIV as int),
{
    let r = rest as u128;
    assert(r * r <= u128::MAX) by (nonlinear_arith)
        requires
            r <= u64::MAX,
    ;
    (r * r) / K_DIV
}

/// Whether a sale with these inputs runs to its outcome; where it does not,
/// the instruction aborts on an arithmetic overflow.
pub fn will_sell_complete(
    mint: &UtilityStakeMint,
    stake: &UtilityStakeAccount,
    amount_in: u64,
    min_output_amount: u64,
) -> (r: bool)
    ensures
        r == sell_completes(*mint, *stake, amount_in, min_output_amount),
{
    if stake.amount < amount_in {
        return true;
    }
    let burnt = mint.stakes_burnt;
    assert((amount_in as int) * (burnt as int) <= u128::MAX) by (nonlinear_arith)
        requires
            amount_in <= u64::MAX,
            burnt <= u64::MAX,
    ;
    if amount_in as u128 * burnt as u128 > u64::MAX as u128 {
        return false;
    }
    if mint.stakes_total == 0 {
        return false;
    }
    if (amount_in * burnt) / mint.stakes_total > amount_in {
        return false;
    }
    if burnt > mint.stakes_total {
        return false;
    }
    let adjusted_my_token = adjusted_sale_amount(mint, amount_in);
    let adjusted_stakes_total = mint.stakes_total - burnt;
    if adjusted_my_token > adjusted_stakes_total {
        return true;
    }
    let total_collateral_after = curve_collateral(adjusted_stakes_total - adjusted_my_token);
    let asked = #[verifier::truncate] (total_collateral_after as u64);
    if asked > mint.collateral {
        return false;
    }
    let sell_price = mint.collateral - asked;
    sell_price < min_output_amount || amount_in <= mint.stakes_total
}

/// Sells `amount_in` of the seller's stakes. The seller must hold them, the
/// curve must have that many unburnt stakes once the sale is scaled down by
/// the burns, and the price must be at least `min_output_amount` lamports.
/// On success the seller's balance and the curve's total drop by `amount_in`,
/// the collateral drops by the price, and the result is the price: the
/// lamports to transfer from the collateral account to the seller. A refused
/// sale changes no account.
pub fn sell(
    mint: &mut UtilityStakeMint,
    stake: &mut UtilityStakeAccount,
    amount_in: u64,
    min_output_amount: u64,
) -> (r: Result<u64, ContractError>)
    requires
        sell_completes(*old(mint), *old(stake), amount_in, min_output_amount),
    ensures
        r is Err <==> sell_error(*old(mint), *old(stake), amount_in, min_output_amount) is Some,
        r matches Err(e) ==> {
            &&& Some(e) == sell_error(*old(mint), *old(stake), amount_in, min_output_amount)
            &&& *final(mint) == *old(mint)
            &&& *final(stake) == *old(stake)
        },
        old(stake).amount < amount_in ==> r == Err::<u64, ContractError>(
            ContractError::InsufficientTokenBalance,
        ) && *final(mint) == *old(mint) && *final(stake) == *old(stake),
        r is Ok ==> old(stake).amount >= amount_in,
        r is Ok ==> {
            let rest = (final(mint).stakes_total - final(mint).stakes_burnt) + (amount_in
                * old(mint).stakes_burnt) / (old(mint).stakes_total as int);
            final(mint).collateral == ((rest * rest) / (K_DIV as int)) as u64
        },
        r is Ok && old(mint).stakes_burnt == 0 ==> {
            let left = final(mint).stakes_total;
            final(mint).collateral == ((left * left) / (K_DIV as int)) as u64
        },
        r matches Ok(price) ==> {
            &&& price == sale_price(*old(mint), amount_in)
            &&& min_output_amount <= price <= old(mint).collateral
            &&& *final(mint) == after_sale(*old(mint), amount_in)
            &&& final(mint).collateral == old(mint).collateral - price
            &&& final(mint).stakes_total == old(mint).stakes_total - amount_in
            &&& (final(mint).stakes_burnt < final(mint).stakes_total <==> amount_in
                < old(mint).stakes_total - old(mint).stakes_burnt)
            &&& final(stake).amount == old(stake).amount - amount_in
            &&& final(stake).mint == old(stake).mint
            &&& final(stake).hodler == old(stake).hodler
        },
{
    // Holders' balances count stakes at full size; the burns only enter the
    // price.
    if stake.amount < amount_in {
        return Err(ContractError::InsufficientTokenBalance);
    }
    let adjusted_my_token = adjusted_sale_amount(mint, amount_in);
    let adjusted_stakes_total = mint.stakes_total - mint.stakes_burnt;
    if adjusted_my_token > adjusted_stakes_total {
        return Err(ContractError::InsufficientCollateralInContract);
    }
    let adjusted_token = adjusted_stakes_total - adjusted_my_token;
    let ghost rest: int = (mint.stakes_total - amount_in - mint.stakes_burnt) + (amount_in
        * mint.stakes_burnt) / (mint.stakes_total as int);
    assert(adjusted_token == rest);
    let total_collateral_after = curve_collateral(adjusted_token);
    assert(total_collateral_after == (rest * rest) / (K_DIV as int));
    assert(mint.stakes_burnt == 0 ==> rest == mint.stakes_total - amount_in);
    let sell_price = mint.collateral - #[verifier::truncate] (total_collateral_after as u64);
    if sell_price < min_output_amount {
        return Err(ContractError::PriceChanged);
    }
    if mint.collateral < sell_price {
        return Err(ContractError::InsufficientCollateralInContract);
    }
    stake.amount = stake.amount - amount_in;
    mint.stakes_total = mint.stakes_total - amount_in;
    mint.collateral = mint.collateral - sell_price;
    Ok(sell_price)
}

} // verus!
