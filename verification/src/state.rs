//! The accounts of the program and the events that it reports.

use vstd::prelude::*;
use crate::math::{isqrt, K_DIV};

verus! {

/// The 32 bytes of an account address.
#[derive(Clone, Copy, Debug, PartialEq, Eq)]
pub struct Pubkey(pub [u8; 32]);

impl View for Pubkey {
    type V = Seq<u8>;

    open spec fn view(&self) -> Seq<u8> {
        self.0@
    }
}

/// The address of 32 zero bytes, which an account field holds before it is set.
pub open spec fn default_key() -> Seq<u8> {
    Seq::new(32, |i: int| 0u8)
}

impl Default for Pubkey {
    /// The address of 32 zero bytes.
    fn default() -> (k: Pubkey)
        ensures
            k@ == default_key(),
    {
        let k = Pubkey([0u8; 32]);
        assert(k@ =~= default_key());
        k
    }
}

impl Pubkey {
    /// The address with the given bytes.
    pub fn new_from_array(bytes: [u8; 32]) -> (k: Pubkey)
        ensures
            k@ == bytes@,
    {
        Pubkey(bytes)
    }

    /// The bytes of the address.
    pub fn to_bytes(&self) -> (b: [u8; 32])
        ensures
            b@ == self@,
    {
        self.0
    }

    /// Whether two addresses are the same.
    pub fn same_as(&self, other: &Pubkey) -> (r: bool)
        ensures
            r == (self@ == other@),
    {
        let mut i: usize = 0;
        while i < 32
            invariant
                0 <= i <= 32,
                self@.len() == 32,
                other@.len() == 32,
                forall|j: int| 0 <= j < i ==> self@[j] == other@[j],
            decreases 32 - i,
        {
            if self.0[i] != other.0[i] {
                return false;
            }
            i = i + 1;
        }
        assert(self@ =~= other@);
        true
    }

    /// Whether this is the address of 32 zero bytes.
    pub fn is_default(&self) -> (r: bool)
        ensures
            r == (self@ == default_key()),
    {
        let zero = Pubkey::default();
        self.same_as(&zero)
    }
}

/// The accounts whose signatures the constraint functions need.
#[derive(Clone, Debug, Default)]
pub struct ConstraintFunctionSignerList {
    pub constraint_account_ids: Vec<Pubkey>,
}

impl ConstraintFunctionSignerList {
    /// The space of a list of one address: the length prefix and one key.
    pub const LEN: usize = 4 + 1 * 32;
}

/// The accounts that administer the program together.
#[derive(Clone, Debug, Default)]
pub struct MultiSigAdminList {
    pub admin_account_ids: Vec<Pubkey>,
}

impl MultiSigAdminList {
    /// The space of a list of one address: the length prefix and one key.
    pub const LEN: usize = 4 + 1 * 32;
}

/// The state of one bonding curve. Stakes are counted in units of 10^-9,
/// as collateral is counted in lamports.
#[derive(Clone, Copy, Debug, PartialEq, Eq)]
pub struct UtilityStakeMint {
    /// Every stake issued and not sold, burnt ones included.
    pub stakes_total: u64,
    /// The part of `stakes_total` that withdrawals of collateral have burnt.
    pub stakes_burnt: u64,
    /// The lamports that back the stakes.
    pub collateral: u64,
    pub admin_signer: Pubkey,
    pub constraint_signer: Pubkey,
}

impl UtilityStakeMint {
    /// The space of the account's fields.
    pub const LEN: usize = 8 + 8 + 8 + 32 + 32;

    /// The curve sits on its curve `collateral = k * (total - burnt)^2`: its
    /// unburnt stakes are the largest count whose `k * count^2` does not
    /// exceed the collateral.
    pub open spec fn on_curve(self) -> bool {
        &&& self.stakes_burnt <= self.stakes_total
        &&& self.stakes_total - self.stakes_burnt == isqrt(self.collateral * K_DIV)
    }
}

/// The stakes that one holder owns of one curve, counted before burning.
#[derive(Clone, Copy, Debug, PartialEq, Eq)]
pub struct UtilityStakeAccount {
    pub mint: Pubkey,
    pub hodler: Pubkey,
    pub amount: u64,
}

impl UtilityStakeAccount {
    /// The space of the account's fields.
    pub const LEN: usize = 32 + 32 + 8;
}

impl Default for UtilityStakeAccount {
    /// A fresh account: both addresses zero and no stake.
    fn default() -> (a: UtilityStakeAccount)
        ensures
            a.mint@ == default_key(),
            a.hodler@ == default_key(),
            a.amount == 0,
    {
        UtilityStakeAccount { mint: Pubkey::default(), hodler: Pubkey::default(), amount: 0 }
    }
}

/// A pending withdrawal of collateral by the administrator.
#[derive(Clone, Debug, PartialEq, Eq)]
pub struct WithdrawalAccount {
    pub amount: u64,
    pub deadline: u64,
    pub description: String,
}

impl WithdrawalAccount {
    /// The longest description, in bytes.
    pub const MAX_DESCRIPTION_LEN: usize = 200;

    /// The space of the account's fields with the longest description.
    pub const INIT_SPACE: usize = 8 + 8 + 4 + 200;
}

/// Reported after a purchase.
#[derive(Clone, Copy, Debug, PartialEq, Eq)]
pub struct UtilityTradeEvent {
    pub stakes_total: u64,
    pub collateral: u64,
}

/// Reported after a withdrawal.
#[derive(Clone, Copy, Debug, PartialEq, Eq)]
pub struct UtilityWithdrawEvent {
    pub stakes_burnt: u64,
    pub collateral: u64,
}

} // verus!
