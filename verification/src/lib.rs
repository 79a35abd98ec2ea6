//! A bonding-curve staking program: the arithmetic and the account rules of
//! every instruction, stated and proved over plain account data.

pub mod math;
pub mod errors;
pub mod state;
pub mod utils;
pub mod instructions;
pub mod laws;
