//! The errors with which the program refuses an instruction.

use vstd::prelude::*;

verus! {

/// Why an instruction was refused. A refused instruction changes no account.
#[derive(Clone, Copy, Debug, PartialEq, Eq, Structural)]
pub enum ContractError {
    InvalidConstraintSigner,
    ConstraintSignerNotSigned,
    InvalidAdminSigner,
    AdminSignerNotSigned,
    PriceChanged,
    InsufficientTokenBalance,
    InsufficientCollateralInContract,
    StillTimeLeft,
    TooLate,
    InvalidInputAmount,
    InsufficientStakeInContract,
}

impl ContractError {
    /// The message that the program reports with the error.
    pub fn message(&self) -> (m: &'static str)
        ensures
            m@ == error_message(*self)@,
    {
        match self {
            ContractError::InvalidConstraintSigner => "Buy request provided wrong constraint signer.",
            ContractError::ConstraintSignerNotSigned => "Constraint signer did not sign the buy request.",
            ContractError::InvalidAdminSigner => "Request provided wrong admin signer.",
            ContractError::AdminSignerNotSigned => "Admin signer did not sign the transaction.",
            ContractError::PriceChanged => "The price per token changed.",
            ContractError::InsufficientTokenBalance => "You don't own enough Token.",
            ContractError::InsufficientCollateralInContract => "Insufficient Collateral in Contract.",
            ContractError::StillTimeLeft => "There is still time left before the withdrawal deadline.",
            ContractError::TooLate => "You have to withdraw within 10 days after withdrawal deadline.",
            ContractError::InvalidInputAmount => "You have to withdraw within 10 days after withdrawal deadline.",
            ContractError::InsufficientStakeInContract => "Insufficient Stake in Contract.",
        }
    }
}

/// The message of each error.
pub open spec fn error_message(e: ContractError) -> &'static str {
    match e {
        ContractError::InvalidConstraintSigner => "Buy request provided wrong constraint signer.",
        ContractError::ConstraintSignerNotSigned => "Constraint signer did not sign the buy request.",
        ContractError::InvalidAdminSigner => "Request provided wrong admin signer.",
        ContractError::AdminSignerNotSigned => "Admin signer did not sign the transaction.",
        ContractError::PriceChanged => "The price per token changed.",
        ContractError::InsufficientTokenBalance => "You don't own enough Token.",
        ContractError::InsufficientCollateralInContract => "Insufficient Collateral in Contract.",
        ContractError::StillTimeLeft => "There is still time left before the withdrawal deadline.",
        ContractError::TooLate => "You have to withdraw within 10 days after withdrawal deadline.",
        ContractError::InvalidInputAmount => "You have to withdraw within 10 days after withdrawal deadline.",
        ContractError::InsufficientStakeInContract => "Insufficient Stake in Contract.",
    }
}

} // verus!
