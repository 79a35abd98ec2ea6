//! Withdrawals of collateral by the administrator: a request, its abort, and
//! the withdrawal itself, which burns the stakes that the remaining collateral
//! no longer backs.

use vstd::prelude::*;
use vstd::arithmetic::div_mod::lemma_div_is_ordered;
use crate::errors::ContractError;
use crate::instructions::change::{admin_error, check_admin};
use crate::math::{fixed_div_floor, integer_sqrt, isqrt, K_DIV};
use crate::state::{Pubkey, UtilityStakeMint, UtilityWithdrawEvent, WithdrawalAccount};

verus! {

/// Ten days in seconds: the shortest wait before a withdrawal, and the time
/// after its deadline within which it must be made.
pub const TEN_DAYS: u64 = 864000;

/// Sixty days in seconds: the wait for the largest withdrawals.
pub const SIXTY_DAYS: u64 = 5184000;

/// The wait before a withdrawal of `amount` lamports: ten days up to
/// 333333333333 lamports, then growing linearly by `9 * amount / 68750000`
/// seconds (rounded down) over ten days, and sixty days from 33333333333333
/// lamports on.
pub open spec fn wait_time(amount: u64) -> int {
    if amount > 333333333333 {
        if amount < 33333333333333 {
            (9 * amount) / 68750000 + TEN_DAYS
        } else {
            SIXTY_DAYS as int
        }
    } else {
        TEN_DAYS as int
    }
}

/// The wait before a withdrawal of `amount` lamports, in seconds.
pub fn withdrawal_wait_time(amount: u64) -> (w: u64)
    ensures
        w == wait_time(amount),
        864000 <= w <= 5227636,
{
    let mut wait: u64 = TEN_DAYS;
    if amount > 333333333333 {
        if amount < 33333333333333 {
            let product: u64 = 9 * amount;
            proof {
                lemma_div_is_ordered(9 * amount, 9 * 33333333333332int, 68750000);
            }
            let scaled = fixed_div_floor(product, 68750000);
            wait = scaled + TEN_DAYS;
        } else {
            wait = SIXTY_DAYS;
        }
    }
    wait
}

/// The error with which a withdrawal request is refused, if any.
pub open spec fn initialize_error(
    mint: UtilityStakeMint,
    admin: Pubkey,
    admin_is_signer: bool,
    amount: u64,
) -> Option<ContractError> {
    if admin_error(mint, admin, admin_is_signer) is Some {
        admin_error(mint, admin, admin_is_signer)
    } else if mint.collateral < amount {
        Some(ContractError::InsufficientCollateralInContract)
    } else {
        None
    }
}

/// A withdrawal request runs to its outcome without an arithmetic overflow:
/// where it is granted, the time plus the wait fits in 64 bits.
pub open spec fn initialize_completes(
    mint: UtilityStakeMint,
    admin: Pubkey,
    admin_is_signer: bool,
    amount: u64,
    unix_timestamp: i64,
) -> bool {
    initialize_error(mint, admin, admin_is_signer, amount) is None ==> (unix_timestamp as u64)
        + wait_time(amount) <= u64::MAX
}

/// Whether a withdrawal request with these inputs runs to its outcome; where
/// it does not, the instruction aborts on an arithmetic overflow.
pub fn will_initialize_complete(
    mint: &UtilityStakeMint,
    admin: &Pubkey,
    admin_is_signer: bool,
    amount: u64,
    unix_timestamp: i64,
) -> (r: bool)
    ensures
        r == initialize_completes(*mint, *admin, admin_is_signer, amount, unix_timestamp),
{
    if check_admin(mint, admin, admin_is_signer).is_err() || mint.collateral < amount {
        return true;
    }
    let now = #[verifier::truncate] (unix_timestamp as u64);
    now <= u64::MAX - withdrawal_wait_time(amount)
}

/// Requests a withdrawal of `amount` lamports of collateral, at the
/// administrator's signed request; the collateral must cover the amount. The
/// result is the new withdrawal account: its amount, its description, and as
/// its deadline the request's time (`unix_timestamp` read as unsigned) plus
/// the wait for the amount. A refused request creates no account.
pub fn initialize(
    mint: &UtilityStakeMint,
    admin: &Pubkey,
    admin_is_signer: bool,
    amount: u64,
    description: String,
    unix_timestamp: i64,
) -> (r: Result<WithdrawalAccount, ContractError>)
    requires
        initialize_completes(*mint, *admin, admin_is_signer, amount, unix_timestamp),
    ensures
        r is Err <==> initialize_error(*mint, *admin, admin_is_signer, amount) is Some,
        r matches Err(e) ==> Some(e) == initialize_error(*mint, *admin, admin_is_signer, amount),
        admin@ != mint.admin_signer@ ==> r == Err::<WithdrawalAccount, ContractError>(
            ContractError::InvalidAdminSigner,
        ),
        admin@ == mint.admin_signer@ && !admin_is_signer ==> r == Err::<
            WithdrawalAccount,
            ContractError,
        >(ContractError::AdminSignerNotSigned),
        admin@ == mint.admin_signer@ && admin_is_signer && amount > mint.collateral ==> r == Err::<
            WithdrawalAccount,
            ContractError,
        >(ContractError::InsufficientCollateralInContract),
        r is Ok ==> admin@ == mint.admin_signer@ && admin_is_signer && amount <= mint.collateral,
        r matches Ok(w) ==> {
            &&& w.amount == amount
            &&& w.deadline == (unix_timestamp as u64) + wait_time(amount)
            &&& (unix_timestamp as u64) + 864000 <= w.deadline <= (unix_timestamp as u64) + 5227636
            &&& w.description == description
        },
{
    check_admin(mint, admin, admin_is_signer)?;
    if mint.collateral < amount {
        return Err(ContractError::InsufficientCollateralInContract);
    }
    let wait = withdrawal_wait_time(amount);
    let now = #[verifier::truncate] (unix_timestamp as u64);
    let deadline = now + wait;
    Ok(WithdrawalAccount { amount, deadline, description })
}

/// Aborts a pending withdrawal, at the administrator's signed request; the
/// caller then closes the withdrawal account. The curve does not change.
pub fn abort(mint: &UtilityStakeMint, admin: &Pubkey, admin_is_signer: bool) -> (r: Result<
    (),
    ContractError,
>)
    ensures
        r is Err <==> admin_error(*mint, *admin, admin_is_signer) is Some,
        r matches Err(e) ==> Some(e) == admin_error(*mint, *admin, admin_is_signer),
{
    check_admin(mint, admin, admin_is_signer)
}

/// The unburnt stakes that the curve `collateral = k * stakes^2` puts at the
/// collateral left after withdrawing `amount`: `sqrt((collateral - amount) / k)`.
pub open spec fn stakes_backed_after(mint: UtilityStakeMint, amount: u64) -> int {
    isqrt((mint.collateral - amount) * K_DIV)
}

/// The curve after a successful withdrawal of `amount`: the stakes that the
/// collateral left does not back are burnt.
pub open spec fn after_withdrawal(mint: UtilityStakeMint, amount: u64) -> UtilityStakeMint {
    UtilityStakeMint {
        stakes_burnt: (mint.stakes_total - stakes_backed_after(mint, amount)) as u64,
        collateral: (mint.collateral - amount) as u64,
        ..mint
    }
}

/// The error with which a withdrawal is refused, if any.
pub open spec fn withdraw_error(
    mint: UtilityStakeMint,
    withdrawal: WithdrawalAccount,
    admin: Pubkey,
    unix_timestamp: i64,
) -> Option<ContractError> {
    let now = unix_timestamp as u64;
    if admin@ != mint.admin_signer@ {
        Some(ContractError::InvalidAdminSigner)
    } else if mint.collateral < withdrawal.amount {
        Some(ContractError::InsufficientCollateralInContract)
    } else if now < withdrawal.deadline {
        Some(ContractError::StillTimeLeft)
    } else if now > withdrawal.deadline + TEN_DAYS {
        Some(ContractError::TooLate)
    } else if stakes_backed_after(mint, withdrawal.amount) <= 0 {
        Some(ContractError::InsufficientStakeInContract)
    } else {
        None
    }
}

/// A withdrawal runs to its outcome without an arithmetic overflow: once the
/// deadline has passed, the deadline plus ten days fits in 64 bits, and within
/// those ten days the collateral backs no more stakes than the total.
pub open spec fn withdraw_completes(
    mint: UtilityStakeMint,
    withdrawal: WithdrawalAccount,
    admin: Pubkey,
    unix_timestamp: i64,
) -> bool {
    let now = unix_timestamp as u64;
    (admin@ == mint.admin_signer@ && mint.collateral >= withdrawal.amount && now
        >= withdrawal.deadline) ==> {
        &&& withdrawal.deadline + TEN_DAYS <= u64::MAX
        &&& now <= withdrawal.deadline + TEN_DAYS ==> stakes_backed_after(
            mint,
            withdrawal.amount,
        ) <= mint.stakes_total
    }
}

/// Whether a withdrawal with these inputs runs to its outcome; where it does
/// not, the instruction aborts on an arithmetic overflow.
pub fn will_withdraw_complete(
    mint: &UtilityStakeMint,
    withdrawal: &WithdrawalAccount,
    admin: &Pubkey,
    unix_timestamp: i64,
) -> (r: bool)
    ensures
        r == withdraw_completes(*mint, *withdrawal, *admin, unix_timestamp),
{
    let now = #[verifier::truncate] (unix_timestamp as u64);
    if !admin.same_as(&mint.admin_signer) || mint.collateral < withdrawal.amount || now
        < withdrawal.deadline {
        return true;
    }
    if withdrawal.deadline > u64::MAX - TEN_DAYS {
        return false;
    }
    if now > withdrawal.deadline + TEN_DAYS {
        return true;
    }
    let remaining = mint.collateral - withdrawal.amount;
    integer_sqrt(remaining as u128 * K_DIV) <= mint.stakes_total
}

/// Withdraws the requested collateral for the administrator named in the
/// curve, from the deadline on and within ten days after it. The stakes that
/// the collateral left after the withdrawal backs stay unburnt, the rest of
/// the total is burnt, and at least one stake must stay unburnt. On success
/// the collateral drops by the withdrawn amount, the result is the event to
/// report, and the caller transfers the amount from the collateral account to
/// the administrator and closes the withdrawal account. A refused withdrawal
/// changes nothing.
pub fn withdraw(
    mint: &mut UtilityStakeMint,
    withdrawal: &WithdrawalAccount,
    admin: &Pubkey,
    unix_timestamp: i64,
) -> (r: Result<UtilityWithdrawEvent, ContractError>)
    requires
        withdraw_completes(*old(mint), *withdrawal, *admin, unix_timestamp),
    ensures
        r is Err <==> withdraw_error(*old(mint), *withdrawal, *admin, unix_timestamp) is Some,
        r matches Err(e) ==> {
            &&& Some(e) == withdraw_error(*old(mint), *withdrawal, *admin, unix_timestamp)
            &&& *final(mint) == *old(mint)
        },
        admin@ != old(mint).admin_signer@ ==> r == Err::<UtilityWithdrawEvent, ContractError>(
            ContractError::InvalidAdminSigner,
        ) && *final(mint) == *old(mint),
        admin@ == old(mint).admin_signer@ && withdrawal.amount > old(mint).collateral ==> r
            == Err::<UtilityWithdrawEvent, ContractError>(
            ContractError::InsufficientCollateralInContract,
        ) && *final(mint) == *old(mint),
        admin@ == old(mint).admin_signer@ && withdrawal.amount <= old(mint).collateral
            && withdrawal.deadline <= unix_timestamp as u64 <= withdrawal.deadline + 864000 && isqrt(
            (old(mint).collateral - withdrawal.amount) * K_DIV,
        ) == 0 ==> r == Err::<UtilityWithdrawEvent, ContractError>(
            ContractError::InsufficientStakeInContract,
        ) && *final(mint) == *old(mint),
        r is Ok ==> {
            &&& admin@ == old(mint).admin_signer@
            &&& withdrawal.amount <= old(mint).collateral
            &&& withdrawal.deadline <= unix_timestamp as u64 <= withdrawal.deadline + 864000
        },
        admin@ == old(mint).admin_signer@ && withdrawal.amount <= old(mint).collateral && (
        unix_timestamp as u64) < withdrawal.deadline ==> r == Err::<UtilityWithdrawEvent, ContractError>(
            ContractError::StillTimeLeft,
        ) && *final(mint) == *old(mint),
        admin@ == old(mint).admin_signer@ && withdrawal.amount <= old(mint).collateral && (
        unix_timestamp as u64) > withdrawal.deadline + 864000 ==> r == Err::<
            UtilityWithdrawEvent,
            ContractError,
        >(ContractError::TooLate) && *final(mint) == *old(mint),
        r matches Ok(event) ==> {
            &&& *final(mint) == after_withdrawal(*old(mint), withdrawal.amount)
            &&& final(mint).on_curve()
            &&& final(mint).stakes_burnt == old(mint).stakes_total - stakes_backed_after(
                *old(mint),
                withdrawal.amount,
            )
            &&& final(mint).stakes_total - final(mint).stakes_burnt == isqrt(
                final(mint).collateral * K_DIV,
            )
            &&& final(mint).stakes_burnt < final(mint).stakes_total
            &&& final(mint).collateral == old(mint).collateral - withdrawal.amount
            &&& final(mint).stakes_total == old(mint).stakes_total
            &&& final(mint).admin_signer == old(mint).admin_signer
            &&& final(mint).constraint_signer == old(mint).constraint_signer
            &&& event == UtilityWithdrawEvent {
                stakes_burnt: final(mint).stakes_burnt,
                collateral: final(mint).collateral,
            }
        },
{
    if !admin.same_as(&mint.admin_signer) {
        return Err(ContractError::InvalidAdminSigner);
    }
    if mint.collateral < withdrawal.amount {
        return Err(ContractError::InsufficientCollateralInContract);
    }
    let now = #[verifier::truncate] (unix_timestamp as u64);
    if now < withdrawal.deadline {
        return Err(ContractError::StillTimeLeft);
    }
    let margin_withdrawal_deadline = withdrawal.deadline + TEN_DAYS;
    if now > margin_withdrawal_deadline {
        return Err(ContractError::TooLate);
    }
    // collateral = k * x^2, so the unburnt stakes are sqrt(collateral / k)
    // for the collateral that stays.
    let remaining = mint.collateral - withdrawal.amount;
    let sqrt_token = integer_sqrt(remaining as u128 * K_DIV);
    let stakes_burnt = mint.stakes_total - sqrt_token;
    let rest = mint.stakes_total - stakes_burnt;
    if rest == 0 {
        return Err(ContractError::InsufficientStakeInContract);
    }
    mint.stakes_burnt = stakes_burnt;
    mint.collateral = remaining;
    Ok(UtilityWithdrawEvent { stakes_burnt: mint.stakes_burnt, collateral: mint.collateral })
}

} // verus!
