//! Laws of the program that span its instructions.

use vstd::prelude::*;
use vstd::arithmetic::div_mod::{lemma_div_by_multiple, lemma_div_is_ordered, lemma_fundamental_div_mod};
use crate::errors::ContractError;
use crate::instructions::change::admin_error;
use crate::instructions::buy::{after_purchase, buy_error, buy_transfer, purchase_in_range, purchased_stakes, total_after_purchase};
use crate::instructions::initialize::initial_stakes;
use crate::instructions::withdrawal::{
    after_withdrawal, stakes_backed_after, wait_time, withdraw_error, SIXTY_DAYS, TEN_DAYS,
};
use crate::instructions::sell::{
    adjusted_sale, adjusted_supply, after_sale, collateral_after_sale, sale_price, sell_completes,
    sell_error,
};
use crate::math::{
    is_isqrt, isqrt, lemma_isqrt_exists, lemma_isqrt_fits_u64, lemma_isqrt_monotone,
    lemma_isqrt_positive, K_DIV,
};
use crate::state::{Pubkey, UtilityStakeAccount, UtilityStakeMint, WithdrawalAccount};

verus! {

/// A new curve sits on its curve: its total is the largest `t` with
/// `k * t^2` no more than its collateral.
pub proof fn lemma_initial_stakes_on_curve(collateral: u64)
    ensures
        is_isqrt(initial_stakes(collateral), collateral * K_DIV),
        0 <= initial_stakes(collateral) <= u64::MAX,
{
    lemma_isqrt_exists(collateral * K_DIV);
    lemma_isqrt_fits_u64(collateral * K_DIV);
}

/// Selling exactly the stakes that a purchase issued undoes the purchase on a
/// curve without burns that sits on its curve (as a new curve does): the
/// purchase is in range and issues stakes, the sale is in range and granted
/// for any minimum up to the amount paid, it restores the stake total, and it
/// pays back the amount paid plus the lamports by which the collateral
/// exceeded `k * total^2`, so never less than the amount paid.
pub proof fn lemma_sell_undoes_buy(
    mint: UtilityStakeMint,
    stake: UtilityStakeAccount,
    amount_in: u64,
    min_output_amount: u64,
)
    requires
        mint.stakes_burnt == 0,
        mint.collateral > 0,
        mint.stakes_total == initial_stakes(mint.collateral),
        mint.collateral + amount_in <= u64::MAX,
        stake.amount >= purchased_stakes(mint, amount_in),
        min_output_amount <= amount_in,
    ensures
        ({
            let minted = purchased_stakes(mint, amount_in);
            let bought = after_purchase(mint, amount_in);
            let sold = after_sale(bought, minted as u64);
            let residue = (mint.stakes_total * mint.stakes_total) / (K_DIV as int);
            &&& purchase_in_range(mint, amount_in)
            &&& 0 <= minted <= u64::MAX
            &&& bought.stakes_total == mint.stakes_total + minted
            &&& sell_completes(bought, stake, minted as u64, min_output_amount)
            &&& sell_error(bought, stake, minted as u64, min_output_amount) is None
            &&& residue <= mint.collateral
            &&& sale_price(bought, minted as u64) == amount_in + (mint.collateral - residue)
            &&& sale_price(bought, minted as u64) >= amount_in
            &&& sold.stakes_total == mint.stakes_total
            &&& sold.stakes_burnt == 0
            &&& sold.collateral == residue
        }),
{
    let c = mint.collateral as int;
    let a = amount_in as int;
    let k = K_DIV as int;
    let t = mint.stakes_total as int;
    lemma_isqrt_exists(c * k);
    lemma_isqrt_exists((c + a) * k);
    lemma_isqrt_monotone(c * k, (c + a) * k);
    lemma_isqrt_positive(c * k);
    lemma_isqrt_fits_u64((c + a) * k);
    let x = isqrt((c + a) * k);
    assert(t == isqrt(c * k));
    assert(1 <= t <= x <= u64::MAX);
    assert(total_after_purchase(mint, amount_in) == x);
    let minted = x - t;
    assert(purchased_stakes(mint, amount_in) == minted);
    let bought = after_purchase(mint, amount_in);
    assert(bought.stakes_total == x);
    assert(bought.collateral == c + a);
    let m = minted as u64;
    assert(m * bought.stakes_burnt == 0) by (nonlinear_arith)
        requires
            bought.stakes_burnt == 0,
    ;
    assert((m * bought.stakes_burnt) / (bought.stakes_total as int) == 0);
    // The sale leaves exactly the total before the purchase.
    let residue = (t * t) / k;
    lemma_div_is_ordered(t * t, c * k, k);
    lemma_div_by_multiple(c, k);
    assert(residue <= c);
    assert(t * t >= 0) by (nonlinear_arith);
    assert(0 <= residue);
}

/// Paying more never issues fewer stakes.
pub proof fn lemma_more_paid_more_stakes(mint: UtilityStakeMint, smaller: u64, larger: u64)
    requires
        smaller <= larger,
    ensures
        purchased_stakes(mint, smaller) <= purchased_stakes(mint, larger),
{
    let k = K_DIV as int;
    lemma_isqrt_monotone((mint.collateral + smaller) * k, (mint.collateral + larger) * k);
}

/// The burns never scale a larger sale down below a smaller one.
pub proof fn lemma_adjusted_sale_monotone(mint: UtilityStakeMint, smaller: u64, larger: u64)
    requires
        mint.stakes_burnt <= mint.stakes_total,
        mint.stakes_total > 0,
        smaller <= larger,
    ensures
        adjusted_sale(mint, smaller) <= adjusted_sale(mint, larger),
{
    let t = mint.stakes_total as int;
    let b = mint.stakes_burnt as int;
    let p1 = smaller * b;
    let p2 = larger * b;
    lemma_fundamental_div_mod(p1, t);
    lemma_fundamental_div_mod(p2, t);
    let q1 = p1 / t;
    let q2 = p2 / t;
    assert(q2 - q1 <= larger - smaller) by (nonlinear_arith)
        requires
            p1 == t * q1 + p1 % t,
            p2 == t * q2 + p2 % t,
            0 <= p1 % t < t,
            0 <= p2 % t < t,
            p1 == smaller * b,
            p2 == larger * b,
            0 <= b <= t,
            smaller <= larger,
    ;
}

/// Selling more never pays less, as long as the curve's price for the rest
/// of the smaller sale stays within the collateral.
pub proof fn lemma_more_sold_more_paid(mint: UtilityStakeMint, smaller: u64, larger: u64)
    requires
        mint.stakes_burnt <= mint.stakes_total,
        mint.stakes_total > 0,
        smaller <= larger,
        adjusted_sale(mint, larger) <= adjusted_supply(mint),
        collateral_after_sale(mint, smaller) <= mint.collateral,
    ensures
        sale_price(mint, smaller) <= sale_price(mint, larger),
{
    lemma_adjusted_sale_monotone(mint, smaller, larger);
    let rest1 = adjusted_supply(mint) - adjusted_sale(mint, smaller);
    let rest2 = adjusted_supply(mint) - adjusted_sale(mint, larger);
    assert(rest2 * rest2 <= rest1 * rest1) by (nonlinear_arith)
        requires
            0 <= rest2 <= rest1,
    ;
    lemma_div_is_ordered(rest2 * rest2, rest1 * rest1, K_DIV as int);
    assert(0 <= rest2 * rest2) by (nonlinear_arith);
}

/// A sale that, scaled down by the burns, takes every unburnt stake pays out
/// the whole collateral and leaves none.
pub proof fn lemma_selling_everything_pays_everything(mint: UtilityStakeMint, amount_in: u64)
    requires
        mint.stakes_total > 0,
        adjusted_sale(mint, amount_in) == adjusted_supply(mint),
    ensures
        sale_price(mint, amount_in) == mint.collateral,
        after_sale(mint, amount_in).collateral == 0,
{
}

/// A purchase leaves the curve on its curve, burns or not, where the new
/// total fits in 64 bits: the unburnt stakes are those that the curve puts at
/// the new collateral.
pub proof fn lemma_buy_keeps_curve(mint: UtilityStakeMint, amount_in: u64)
    requires
        mint.collateral + amount_in <= u64::MAX,
        total_after_purchase(mint, amount_in) <= u64::MAX,
    ensures
        after_purchase(mint, amount_in).on_curve(),
        after_purchase(mint, amount_in).stakes_total == total_after_purchase(mint, amount_in),
{
    lemma_isqrt_exists((mint.collateral + amount_in) * K_DIV);
}

/// A withdrawal leaves the curve on its curve: the unburnt stakes are those
/// that the collateral left after it backs.
pub proof fn lemma_withdraw_keeps_curve(mint: UtilityStakeMint, amount: u64)
    requires
        amount <= mint.collateral,
        stakes_backed_after(mint, amount) <= mint.stakes_total,
    ensures
        after_withdrawal(mint, amount).on_curve(),
{
    lemma_isqrt_exists((mint.collateral - amount) * K_DIV);
}

/// A new curve, its total the stakes that the curve puts at its collateral and
/// none burnt, is on its curve.
pub proof fn lemma_new_curve_on_curve(mint: UtilityStakeMint)
    requires
        mint.stakes_burnt == 0,
        mint.stakes_total == initial_stakes(mint.collateral),
    ensures
        mint.on_curve(),
{
    lemma_isqrt_exists(mint.collateral * K_DIV);
}

/// A granted withdrawal request cannot be withdrawn before the wait for its
/// amount, at least ten days, has passed since the request.
pub proof fn lemma_withdrawal_waits(
    mint: UtilityStakeMint,
    withdrawal: WithdrawalAccount,
    admin: Pubkey,
    requested_at: i64,
    unix_timestamp: i64,
)
    requires
        withdrawal.deadline == (requested_at as u64) + wait_time(withdrawal.amount),
        admin@ == mint.admin_signer@,
        mint.collateral >= withdrawal.amount,
        (unix_timestamp as u64) < (requested_at as u64) + wait_time(withdrawal.amount),
    ensures
        withdraw_error(mint, withdrawal, admin, unix_timestamp) == Some(
            ContractError::StillTimeLeft,
        ),
        withdrawal.deadline >= (requested_at as u64) + TEN_DAYS,
{
    lemma_wait_time_bounds(withdrawal.amount);
}

/// A purchase pays at least the amount paid in into the collateral account,
/// and more only to fill the account up to the recorded collateral: after the
/// transfer the account holds at least the new collateral, surplus lamports
/// already in it are ignored, and a shortfall is filled up exactly.
pub proof fn lemma_purchase_fills_up_collateral(old_collateral: u64, amount_in: u64, collateral_balance: u64)
    ensures
        buy_transfer(old_collateral, amount_in, collateral_balance) >= amount_in,
        collateral_balance + buy_transfer(old_collateral, amount_in, collateral_balance)
            >= old_collateral + amount_in,
        collateral_balance >= old_collateral ==> buy_transfer(
            old_collateral,
            amount_in,
            collateral_balance,
        ) == amount_in,
        collateral_balance < old_collateral ==> collateral_balance + buy_transfer(
            old_collateral,
            amount_in,
            collateral_balance,
        ) == old_collateral + amount_in,
{
}

/// A withdrawal that passes the administrator and collateral checks is
/// refused as too late more than ten days (864000 seconds) after its deadline,
/// whatever its amount.
pub proof fn lemma_late_withdrawal_refused(
    mint: UtilityStakeMint,
    withdrawal: WithdrawalAccount,
    admin: Pubkey,
    unix_timestamp: i64,
)
    requires
        admin@ == mint.admin_signer@,
        withdrawal.amount <= mint.collateral,
        (unix_timestamp as u64) > withdrawal.deadline + 864000,
    ensures
        withdraw_error(mint, withdrawal, admin, unix_timestamp) == Some(ContractError::TooLate),
{
}

/// A withdrawal that passes the administrator and collateral checks is
/// refused before its deadline.
pub proof fn lemma_early_withdrawal_refused(
    mint: UtilityStakeMint,
    withdrawal: WithdrawalAccount,
    admin: Pubkey,
    unix_timestamp: i64,
)
    requires
        admin@ == mint.admin_signer@,
        withdrawal.amount <= mint.collateral,
        (unix_timestamp as u64) < withdrawal.deadline,
    ensures
        withdraw_error(mint, withdrawal, admin, unix_timestamp) == Some(
            ContractError::StillTimeLeft,
        ),
{
}

/// A granted withdrawal happens within its window: from its deadline to ten
/// days (864000 seconds) after it, by the administrator named in the curve,
/// for no more than the collateral.
pub proof fn lemma_withdrawal_window(
    mint: UtilityStakeMint,
    withdrawal: WithdrawalAccount,
    admin: Pubkey,
    unix_timestamp: i64,
)
    requires
        withdraw_error(mint, withdrawal, admin, unix_timestamp) is None,
    ensures
        admin@ == mint.admin_signer@,
        withdrawal.amount <= mint.collateral,
        withdrawal.deadline <= unix_timestamp as u64 <= withdrawal.deadline + 864000,
{
}

/// A withdrawal waits at least ten days, and at most sixty days except for
/// amounts above 33000000000000 and below 33333333333333 lamports, where the
/// linear part of the wait runs past sixty days.
pub proof fn lemma_wait_time_bounds(amount: u64)
    ensures
        864000 <= wait_time(amount) <= 5227636,
        amount <= 33000000000000 || amount >= 33333333333333 ==> wait_time(amount) <= SIXTY_DAYS,
{
    if 333333333333 < amount <= 33000000000000 {
        lemma_div_is_ordered(9 * amount, 9 * 33000000000000int, 68750000);
    }
    if 333333333333 < amount < 33333333333333 {
        lemma_div_is_ordered(9 * amount, 9 * 33333333333332int, 68750000);
    }
}

/// A larger withdrawal never waits less, up to the amount from which the wait
/// is sixty days.
pub proof fn lemma_wait_time_monotone(smaller: u64, larger: u64)
    requires
        smaller <= larger < 33333333333333,
    ensures
        wait_time(smaller) <= wait_time(larger),
{
    if smaller > 333333333333 {
        lemma_div_is_ordered(9 * smaller, 9 * larger, 68750000);
    }
}

/// Once the administrator's role is handed to `new_admin`, the new
/// administrator's signed requests pass the administrator's check, and any
/// other key is refused as the wrong administrator.
pub proof fn lemma_new_admin_takes_over(mint: UtilityStakeMint, new_admin: Pubkey, other: Pubkey, signed: bool)
    requires
        other@ != new_admin@,
    ensures
        ({
            let changed = UtilityStakeMint { admin_signer: new_admin, ..mint };
            &&& admin_error(changed, new_admin, true) is None
            &&& admin_error(changed, other, signed) == Some(ContractError::InvalidAdminSigner)
        }),
{
}

/// Once the constraint signer's role is handed to `new_signer`, purchases
/// signed by the new constraint signer pass the signer checks, and any other
/// key is refused as the wrong constraint signer.
pub proof fn lemma_new_constraint_signer_takes_over(
    mint: UtilityStakeMint,
    new_signer: Pubkey,
    other: Pubkey,
    signed: bool,
    amount_in: u64,
    min_output_amount: u64,
)
    requires
        other@ != new_signer@,
    ensures
        ({
            let changed = UtilityStakeMint { constraint_signer: new_signer, ..mint };
            &&& buy_error(changed, new_signer, true, amount_in, min_output_amount)
                != Some(ContractError::InvalidConstraintSigner)
            &&& buy_error(changed, new_signer, true, amount_in, min_output_amount)
                != Some(ContractError::ConstraintSignerNotSigned)
            &&& buy_error(changed, other, signed, amount_in, min_output_amount) == Some(
                ContractError::InvalidConstraintSigner,
            )
        }),
{
}

} // verus!
