//! Buying stakes: lamports go into the collateral and the curve issues stakes.

use vstd::prelude::*;
use crate::errors::ContractError;
use crate::math::{integer_sqrt, isqrt, lemma_isqrt_positive, K_DIV};
use crate::state::{default_key, Pubkey, UtilityStakeAccount, UtilityStakeMint, UtilityTradeEvent};

verus! {

/// The unburnt stakes that the curve `collateral = k * stakes^2` puts at the
/// collateral after the purchase: `sqrt((collateral + amount_in) / k)`.
pub open spec fn existing_after_purchase(mint: UtilityStakeMint, amount_in: u64) -> int {
    isqrt((mint.collateral + amount_in) * K_DIV)
}

/// The full count of stakes after the purchase: the unburnt ones that the
/// curve puts at the new collateral, and the burnt ones.
pub open spec fn total_after_purchase(mint: UtilityStakeMint, amount_in: u64) -> int {
    existing_after_purchase(mint, amount_in) + mint.stakes_burnt
}

/// The stakes that the purchase issues to the buyer.
pub open spec fn purchased_stakes(mint: UtilityStakeMint, amount_in: u64) -> int {
    total_after_purchase(mint, amount_in) - mint.stakes_total
}

/// The curve after a successful purchase: the new total cut to 64 bits, and
/// the collateral grown by the amount paid in.
pub open spec fn after_purchase(mint: UtilityStakeMint, amount_in: u64) -> UtilityStakeMint {
    UtilityStakeMint {
        stakes_total: total_after_purchase(mint, amount_in) as u64,
        collateral: (mint.collateral + amount_in) as u64,
        ..mint
    }
}

/// The error with which a purchase is refused, if any.
pub open spec fn buy_error(
    mint: UtilityStakeMint,
    constraint_signer: Pubkey,
    constraint_signer_is_signer: bool,
    amount_in: u64,
    min_output_amount: u64,
) -> Option<ContractError> {
    if constraint_signer@ != mint.constraint_signer@ {
        Some(ContractError::InvalidConstraintSigner)
    } else if !constraint_signer_is_signer {
        Some(ContractError::ConstraintSignerNotSigned)
    } else if amount_in == 0 {
        Some(ContractError::InvalidInputAmount)
    } else if purchased_stakes(mint, amount_in) < min_output_amount {
        Some(ContractError::PriceChanged)
    } else {
        None
    }
}

/// The curve's arithmetic for the purchase stays in range: the new total is
/// not below the old one.
pub open spec fn purchase_in_range(mint: UtilityStakeMint, amount_in: u64) -> bool {
    total_after_purchase(mint, amount_in) >= mint.stakes_total
}

/// The purchase runs to its outcome without an arithmetic overflow: the
/// curve's arithmetic stays in range when the signer checks pass, and the
/// collateral, the buyer's balance and the collateral account's lamports stay
/// within 64 bits when the purchase succeeds.
pub open spec fn buy_completes(
    mint: UtilityStakeMint,
    stake: UtilityStakeAccount,
    constraint_signer: Pubkey,
    constraint_signer_is_signer: bool,
    amount_in: u64,
    min_output_amount: u64,
    collateral_balance: u64,
) -> bool {
    &&& (constraint_signer@ == mint.constraint_signer@ && constraint_signer_is_signer && amount_in
        > 0) ==> purchase_in_range(mint, amount_in)
    &&& buy_error(mint, constraint_signer, constraint_signer_is_signer, amount_in, min_output_amount)
        is None ==> {
        &&& mint.collateral + amount_in <= u64::MAX
        &&& stake.amount != 0 ==> stake.amount + (purchased_stakes(mint, amount_in) as u64)
            <= u64::MAX
        &&& collateral_balance + amount_in <= u64::MAX
    }
}

/// The lamports that the buyer pays into the collateral account: the amount
/// paid in, or more where the account holds less than the recorded collateral.
pub open spec fn buy_transfer(old_collateral: u64, amount_in: u64, collateral_balance: u64) -> int {
    if collateral_balance + amount_in < old_collateral + amount_in {
        old_collateral + amount_in - collateral_balance
    } else {
        amount_in as int
    }
}

/// The curve's new stake total, computed as the purchase computes it.
fn purchase_total(mint: &UtilityStakeMint, amount_in: u64) -> (total: u128)
    ensures
        total == total_after_purchase(*mint, amount_in),
{
    // x = sqrt(end collateral / k); total = existing + burnt.
    let end_collateral: u128 = mint.collateral as u128 + amount_in as u128;
    let existing: u64 = integer_sqrt(end_collateral * K_DIV);
    existing as u128 + mint.stakes_burnt as u128
}

/// Whether a purchase with these inputs runs to its outcome; where it does
/// not, the instruction aborts on an arithmetic overflow.
pub fn will_buy_complete(
    mint: &UtilityStakeMint,
    stake: &UtilityStakeAccount,
    constraint_signer: &Pubkey,
    constraint_signer_is_signer: bool,
    amount_in: u64,
    min_output_amount: u64,
    collateral_balance: u64,
) -> (r: bool)
    ensures
        r == buy_completes(
            *mint,
            *stake,
            *constraint_signer,
            constraint_signer_is_signer,
            amount_in,
            min_output_amount,
            collateral_balance,
        ),
{
    if !constraint_signer.same_as(&mint.constraint_signer) || !constraint_signer_is_signer
        || amount_in == 0 {
        return true;
    }
    let total = purchase_total(mint, amount_in);
    if total < mint.stakes_total as u128 {
        return false;
    }
    let minted = total - mint.stakes_total as u128;
    if minted < min_output_amount as u128 {
        return true;
    }
    if mint.collateral > u64::MAX - amount_in {
        return false;
    }
    if stake.amount != 0 && stake.amount > u64::MAX - #[verifier::truncate] (minted as u64) {
        return false;
    }
    collateral_balance <= u64::MAX - amount_in
}

/// Buys stakes for `amount_in` lamports. The constraint signer named in the
/// curve must have signed, and the purchase must issue at least
/// `min_output_amount` stakes. On success the curve's total becomes the new
/// total (cut to 64 bits), its collateral grows by `amount_in`, the buyer's
/// account is bound to this curve and buyer where it was fresh and is credited
/// with the issued stakes, and the result holds the lamports to transfer from
/// the buyer to the collateral account and the event to report. A refused
/// purchase changes no account.
pub fn buy(
    mint: &mut UtilityStakeMint,
    stake: &mut UtilityStakeAccount,
    mint_key: &Pubkey,
    buyer: &Pubkey,
    constraint_signer: &Pubkey,
    constraint_signer_is_signer: bool,
    amount_in: u64,
    min_output_amount: u64,
    collateral_balance: u64,
) -> (r: Result<(u64, UtilityTradeEvent), ContractError>)
    requires
        buy_completes(
            *old(mint),
            *old(stake),
            *constraint_signer,
            constraint_signer_is_signer,
            amount_in,
            min_output_amount,
            collateral_balance,
        ),
    ensures
        r is Err <==> buy_error(
            *old(mint),
            *constraint_signer,
            constraint_signer_is_signer,
            amount_in,
            min_output_amount,
        ) is Some,
        r matches Err(e) ==> {
            &&& Some(e) == buy_error(
                *old(mint),
                *constraint_signer,
                constraint_signer_is_signer,
                amount_in,
                min_output_amount,
            )
            &&& *final(mint) == *old(mint)
            &&& *final(stake) == *old(stake)
        },
        constraint_signer@ != old(mint).constraint_signer@ ==> r == Err::<
            (u64, UtilityTradeEvent),
            ContractError,
        >(ContractError::InvalidConstraintSigner) && *final(mint) == *old(mint) && *final(stake)
            == *old(stake),
        constraint_signer@ == old(mint).constraint_signer@ && !constraint_signer_is_signer ==> r
            == Err::<(u64, UtilityTradeEvent), ContractError>(
            ContractError::ConstraintSignerNotSigned,
        ) && *final(mint) == *old(mint) && *final(stake) == *old(stake),
        constraint_signer@ == old(mint).constraint_signer@ && constraint_signer_is_signer && amount_in
            == 0 ==> r == Err::<(u64, UtilityTradeEvent), ContractError>(
            ContractError::InvalidInputAmount,
        ) && *final(mint) == *old(mint) && *final(stake) == *old(stake),
        constraint_signer@ == old(mint).constraint_signer@ && constraint_signer_is_signer && amount_in
            > 0 && isqrt((old(mint).collateral + amount_in) * K_DIV) + old(mint).stakes_burnt
            - old(mint).stakes_total < min_output_amount ==> r == Err::<
            (u64, UtilityTradeEvent),
            ContractError,
        >(ContractError::PriceChanged) && *final(mint) == *old(mint) && *final(stake) == *old(stake),
        r is Ok ==> isqrt((old(mint).collateral + amount_in) * K_DIV) + old(mint).stakes_burnt
            - old(mint).stakes_total >= min_output_amount,
        r is Ok ==> {
            &&& constraint_signer@ == old(mint).constraint_signer@
            &&& constraint_signer_is_signer
            &&& amount_in > 0
        },
        r matches Ok((transfer, _)) ==> {
            &&& transfer >= amount_in
            &&& collateral_balance + transfer >= old(mint).collateral + amount_in
            &&& (transfer == amount_in || collateral_balance + transfer == old(mint).collateral
                + amount_in)
        },
        r matches Ok((transfer, event)) ==> {
            let minted = purchased_stakes(*old(mint), amount_in);
            &&& minted >= min_output_amount
            &&& *final(mint) == after_purchase(*old(mint), amount_in)
            &&& final(mint).collateral == old(mint).collateral + amount_in
            &&& total_after_purchase(*old(mint), amount_in) <= u64::MAX ==> {
                &&& final(mint).stakes_total == old(mint).stakes_total + minted
                &&& final(stake).amount == old(stake).amount + minted
                &&& final(mint).stakes_total - final(mint).stakes_burnt == isqrt(
                    final(mint).collateral * K_DIV,
                )
                &&& final(mint).stakes_burnt < final(mint).stakes_total
            }
            &&& final(stake).mint == if old(stake).mint@ == default_key() {
                *mint_key
            } else {
                old(stake).mint
            }
            &&& final(stake).hodler == if old(stake).hodler@ == default_key() {
                *buyer
            } else {
                old(stake).hodler
            }
            &&& final(stake).amount == if old(stake).amount == 0 {
                minted as u64
            } else {
                (old(stake).amount + (minted as u64)) as u64
            }
            &&& transfer == buy_transfer(old(mint).collateral, amount_in, collateral_balance)
            &&& event == UtilityTradeEvent {
                stakes_total: final(mint).stakes_total,
                collateral: final(mint).collateral,
            }
        },
{
    if !constraint_signer.same_as(&mint.constraint_signer) {
        return Err(ContractError::InvalidConstraintSigner);
    }
    if !constraint_signer_is_signer {
        return Err(ContractError::ConstraintSignerNotSigned);
    }
    if amount_in == 0 {
        return Err(ContractError::InvalidInputAmount);
    }
    let total_token_after_purchase = purchase_total(mint, amount_in);
    let my_token = total_token_after_purchase - mint.stakes_total as u128;
    if my_token < min_output_amount as u128 {
        return Err(ContractError::PriceChanged);
    }
    proof {
        lemma_isqrt_positive((mint.collateral + amount_in) * K_DIV);
    }
    mint.stakes_total = #[verifier::truncate] (total_token_after_purchase as u64);
    mint.collateral = amount_in + mint.collateral;
    if stake.mint.is_default() {
        stake.mint = *mint_key;
    }
    if stake.hodler.is_default() {
        stake.hodler = *buyer;
    }
    if stake.amount == 0 {
        stake.amount = #[verifier::truncate] (my_token as u64);
    } else {
        stake.amount = stake.amount + #[verifier::truncate] (my_token as u64);
    }
    // The collateral account may hold less than the recorded collateral;
    // lamports sent to it from elsewhere are ignored, a shortfall is filled up.
    let mut fill_up_collateral_account = amount_in;
    let account_balance_amount_in_adjusted = collateral_balance + fill_up_collateral_account;
    if account_balance_amount_in_adjusted < mint.collateral {
        fill_up_collateral_account = mint.collateral - collateral_balance;
    }
    let event = UtilityTradeEvent { stakes_total: mint.stakes_total, collateral: mint.collateral };
    Ok((fill_up_collateral_account, event))
}

} // verus!
