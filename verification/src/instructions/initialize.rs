//! Creating a curve: the payer funds the accounts' rent, and that rent is the
//! curve's first collateral.

use vstd::prelude::*;
use crate::math::{integer_sqrt, isqrt, lemma_isqrt_exists, K_DIV};
use crate::state::{Pubkey, UtilityStakeMint};

verus! {

/// The stakes that the curve `collateral = k * stakes^2` issues for `collateral`
/// lamports: `sqrt(collateral / k)`, rounded down.
pub open spec fn initial_stakes(collateral: u64) -> int {
    isqrt(collateral * K_DIV)
}

/// Creates a curve whose first collateral is the rent of the curve's account
/// and of the collateral account, which the caller transfers from the payer;
/// the two amounts must not sum beyond 64 bits. The curve issues the stakes
/// that its curve puts at that collateral, none of them burnt, and names the
/// administrator and the constraint signer.
pub fn initialize(
    min_mint_lamports: u64,
    min_collateral_lamports: u64,
    constraint_signer: Pubkey,
    admin_signer: Pubkey,
) -> (mint: UtilityStakeMint)
    requires
        min_mint_lamports + min_collateral_lamports <= u64::MAX,
    ensures
        mint.collateral == min_mint_lamports + min_collateral_lamports,
        mint.stakes_total == initial_stakes(mint.collateral),
        mint.stakes_total * mint.stakes_total <= mint.collateral * K_DIV < (mint.stakes_total + 1) * (
        mint.stakes_total + 1),
        mint.stakes_burnt == 0,
        mint.admin_signer == admin_signer,
        mint.constraint_signer == constraint_signer,
{
    let min_lamports = min_mint_lamports + min_collateral_lamports;
    let initial_token = integer_sqrt(min_lamports as u128 * K_DIV);
    proof {
        lemma_isqrt_exists(min_lamports * K_DIV);
    }
    UtilityStakeMint {
        stakes_total: initial_token,
        stakes_burnt: 0,
        collateral: min_lamports,
        admin_signer,
        constraint_signer,
    }
}

} // verus!
