//! Handing the administrator's or the constraint signer's role to another key.

use vstd::prelude::*;
use crate::errors::ContractError;
use crate::state::{Pubkey, UtilityStakeMint};

verus! {

/// The error with which the curve's administrator refuses a request, if any:
/// the request must come from the administrator named in the curve, who must
/// have signed it.
pub open spec fn admin_error(mint: UtilityStakeMint, admin: Pubkey, admin_is_signer: bool) -> Option<
    ContractError,
> {
    if admin@ != mint.admin_signer@ {
        Some(ContractError::InvalidAdminSigner)
    } else if !admin_is_signer {
        Some(ContractError::AdminSignerNotSigned)
    } else {
        None
    }
}

/// Checks that the request comes from the administrator named in the curve
/// and that the administrator signed it.
pub fn check_admin(mint: &UtilityStakeMint, admin: &Pubkey, admin_is_signer: bool) -> (r: Result<
    (),
    ContractError,
>)
    ensures
        r is Err <==> admin_error(*mint, *admin, admin_is_signer) is Some,
        r matches Err(e) ==> Some(e) == admin_error(*mint, *admin, admin_is_signer),
{
    if !admin.same_as(&mint.admin_signer) {
        return Err(ContractError::InvalidAdminSigner);
    }
    if !admin_is_signer {
        return Err(ContractError::AdminSignerNotSigned);
    }
    Ok(())
}

/// Makes `new_admin` the curve's administrator, at the current
/// administrator's signed request. Nothing else changes; a refused request
/// changes nothing.
pub fn admin_signer(
    mint: &mut UtilityStakeMint,
    admin: &Pubkey,
    admin_is_signer: bool,
    new_admin: Pubkey,
) -> (r: Result<(), ContractError>)
    ensures
        r is Err <==> admin_error(*old(mint), *admin, admin_is_signer) is Some,
        r matches Err(e) ==> {
            &&& Some(e) == admin_error(*old(mint), *admin, admin_is_signer)
            &&& *final(mint) == *old(mint)
        },
        admin@ != old(mint).admin_signer@ ==> r == Err::<(), ContractError>(
            ContractError::InvalidAdminSigner,
        ) && *final(mint) == *old(mint),
        admin@ == old(mint).admin_signer@ && !admin_is_signer ==> r == Err::<(), ContractError>(
            ContractError::AdminSignerNotSigned,
        ) && *final(mint) == *old(mint),
        r is Ok ==> admin@ == old(mint).admin_signer@ && admin_is_signer,
        r is Ok ==> *final(mint) == (UtilityStakeMint { admin_signer: new_admin, ..*old(mint) }),
{
    check_admin(mint, admin, admin_is_signer)?;
    mint.admin_signer = new_admin;
    Ok(())
}

/// Makes `new_constraint_signer` the key that must sign purchases, at the
/// administrator's signed request. Nothing else changes; a refused request
/// changes nothing.
pub fn constraint_signer(
    mint: &mut UtilityStakeMint,
    admin: &Pubkey,
    admin_is_signer: bool,
    new_constraint_signer: Pubkey,
) -> (r: Result<(), ContractError>)
    ensures
        r is Err <==> admin_error(*old(mint), *admin, admin_is_signer) is Some,
        r matches Err(e) ==> {
            &&& Some(e) == admin_error(*old(mint), *admin, admin_is_signer)
            &&& *final(mint) == *old(mint)
        },
        admin@ != old(mint).admin_signer@ ==> r == Err::<(), ContractError>(
            ContractError::InvalidAdminSigner,
        ) && *final(mint) == *old(mint),
        admin@ == old(mint).admin_signer@ && !admin_is_signer ==> r == Err::<(), ContractError>(
            ContractError::AdminSignerNotSigned,
        ) && *final(mint) == *old(mint),
        r is Ok ==> admin@ == old(mint).admin_signer@ && admin_is_signer,
        r is Ok ==> *final(mint) == (UtilityStakeMint {
            constraint_signer: new_constraint_signer,
            ..*old(mint)
        }),
{
    check_admin(mint, admin, admin_is_signer)?;
    mint.constraint_signer = new_constraint_signer;
    Ok(())
}

} // verus!
