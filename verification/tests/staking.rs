use utility_staking::errors::ContractError;
use utility_staking::instructions::{buy, change, initialize, sell, withdrawal};
use utility_staking::math::{integer_sqrt, K_DIV};
use utility_staking::state::{
    ConstraintFunctionSignerList, MultiSigAdminList, Pubkey, UtilityStakeAccount, UtilityStakeMint,
    UtilityTradeEvent, UtilityWithdrawEvent, WithdrawalAccount,
};
use utility_staking::utils::{withdrawal_adjustment_downscale, withdrawal_adjustment_upscale};

fn key(b: u8) -> Pubkey {
    Pubkey::new_from_array([b; 32])
}

fn curve(stakes_total: u64, stakes_burnt: u64, collateral: u64) -> UtilityStakeMint {
    UtilityStakeMint {
        stakes_total,
        stakes_burnt,
        collateral,
        admin_signer: key(1),
        constraint_signer: key(2),
    }
}

#[test]
fn integer_sqrt_rounds_down() {
    assert_eq!(integer_sqrt(0), 0);
    assert_eq!(integer_sqrt(1), 1);
    assert_eq!(integer_sqrt(15), 3);
    assert_eq!(integer_sqrt(16), 4);
    assert_eq!(integer_sqrt(u128::MAX), u64::MAX);
    assert_eq!(integer_sqrt(2672640 * K_DIV), 283159319112);
}

#[test]
fn keys_compare_by_bytes() {
    assert!(key(3).same_as(&key(3)));
    assert!(!key(3).same_as(&key(4)));
    assert!(Pubkey::default().is_default());
    assert!(!key(5).is_default());
    assert_eq!(key(7).to_bytes(), [7u8; 32]);
    let fresh = UtilityStakeAccount::default();
    assert!(fresh.mint.is_default() && fresh.hodler.is_default());
    assert_eq!(fresh.amount, 0);
}

#[test]
fn account_sizes() {
    assert_eq!(UtilityStakeMint::LEN, 88);
    assert_eq!(UtilityStakeAccount::LEN, 72);
    assert_eq!(ConstraintFunctionSignerList::LEN, 36);
    assert_eq!(MultiSigAdminList::LEN, 36);
    assert_eq!(WithdrawalAccount::INIT_SPACE, 220);
    assert!(ConstraintFunctionSignerList::default().constraint_account_ids.is_empty());
    assert!(MultiSigAdminList::default().admin_account_ids.is_empty());
}

#[test]
fn error_messages() {
    assert_eq!(ContractError::PriceChanged.message(), "The price per token changed.");
    assert_eq!(
        ContractError::InvalidAdminSigner.message(),
        "Request provided wrong admin signer."
    );
}

#[test]
fn initialize_puts_rent_on_the_curve() {
    let mint = initialize::initialize(1781760, 890880, key(2), key(1));
    assert_eq!(mint.collateral, 2672640);
    assert_eq!(mint.stakes_total, 283159319112);
    assert_eq!(mint.stakes_burnt, 0);
    assert_eq!(mint.admin_signer, key(1));
    assert_eq!(mint.constraint_signer, key(2));
}

#[test]
fn adjustments_scale_by_burns() {
    let mint = curve(294948974278, 50000000000, 2000000);
    assert_eq!(withdrawal_adjustment_downscale(100000000, mint), 83047915);
    assert_eq!(withdrawal_adjustment_upscale(100000000, mint), 120412414);
    let unburnt = curve(1000, 0, 5);
    assert_eq!(withdrawal_adjustment_downscale(77, unburnt), 77);
    assert_eq!(withdrawal_adjustment_upscale(77, unburnt), 77);
}

#[test]
fn buy_issues_stakes_on_the_curve() {
    let mut mint = initialize::initialize(1781760, 890880, key(2), key(1));
    let mut stake = UtilityStakeAccount::default();
    assert!(buy::will_buy_complete(&mint, &stake, &key(2), true, 1000000000, 0, 2672640));
    let r = buy::buy(&mut mint, &mut stake, &key(9), &key(8), &key(2), true, 1000000000, 5201380698063, 2672640);
    assert_eq!(
        r,
        Ok((1000000000, UtilityTradeEvent { stakes_total: 5484540017175, collateral: 1002672640 }))
    );
    assert_eq!(mint.stakes_total, 5484540017175);
    assert_eq!(mint.collateral, 1002672640);
    assert_eq!(stake.amount, 5201380698063);
    assert_eq!(stake.mint, key(9));
    assert_eq!(stake.hodler, key(8));
}

#[test]
fn buy_with_burns_adds_the_burnt_stakes() {
    let mut mint = curve(294948974278, 50000000000, 2000000);
    let mut stake = UtilityStakeAccount { mint: key(9), hodler: key(8), amount: 10 };
    let r = buy::buy(&mut mint, &mut stake, &key(4), &key(5), &key(2), true, 500000, 0, 2000000);
    assert_eq!(r, Ok((500000, UtilityTradeEvent { stakes_total: 323861278752, collateral: 2500000 })));
    assert_eq!(stake.amount, 10 + 28912304474);
    // The unburnt stakes are those that the curve puts at the new collateral.
    assert_eq!(mint.stakes_total - mint.stakes_burnt, integer_sqrt(2500000 * K_DIV));
    assert_eq!(stake.mint, key(9));
    assert_eq!(stake.hodler, key(8));
}

#[test]
fn buy_fills_up_a_short_collateral_account() {
    let mut mint = curve(294948974278, 50000000000, 2000000);
    let mut stake = UtilityStakeAccount::default();
    let r = buy::buy(&mut mint, &mut stake, &key(4), &key(5), &key(2), true, 500000, 0, 1500000);
    assert_eq!(r.map(|(transfer, _)| transfer), Ok(1000000));
    let mut mint = curve(294948974278, 50000000000, 2000000);
    let mut stake = UtilityStakeAccount::default();
    let r = buy::buy(&mut mint, &mut stake, &key(4), &key(5), &key(2), true, 500000, 0, 9000000);
    assert_eq!(r.map(|(transfer, _)| transfer), Ok(500000));
}

#[test]
fn buy_refusals_change_nothing() {
    let start = initialize::initialize(1781760, 890880, key(2), key(1));
    let fresh = UtilityStakeAccount::default();
    let cases = [
        (key(3), true, 1000, 0, ContractError::InvalidConstraintSigner),
        (key(2), false, 1000, 0, ContractError::ConstraintSignerNotSigned),
        (key(2), true, 0, 0, ContractError::InvalidInputAmount),
        (key(2), true, 1000000000, 5201380698064, ContractError::PriceChanged),
    ];
    for (signer, signed, amount, min, err) in cases {
        let mut mint = start;
        let mut stake = fresh;
        assert!(buy::will_buy_complete(&mint, &stake, &signer, signed, amount, min, 0));
        let r = buy::buy(&mut mint, &mut stake, &key(9), &key(8), &signer, signed, amount, min, 0);
        assert_eq!(r, Err(err));
        assert_eq!(mint, start);
        assert_eq!(stake, fresh);
    }
}

#[test]
fn buy_overflows_are_detected() {
    let stake = UtilityStakeAccount::default();
    // More stakes issued than the curve puts at the collateral: the new total
    // falls below the old one.
    let above = curve(u64::MAX, 0, 5);
    assert!(!buy::will_buy_complete(&above, &stake, &key(2), true, 10, 0, 0));
    // The collateral would pass 64 bits.
    let full = curve(1, 0, u64::MAX);
    assert!(!buy::will_buy_complete(&full, &stake, &key(2), true, 1, 0, 0));
    // Refused before the arithmetic.
    assert!(buy::will_buy_complete(&above, &stake, &key(3), true, 10, 0, 0));
}

#[test]
fn sell_pays_by_the_curve() {
    let mut mint = curve(294948974278, 50000000000, 2000000);
    let mut stake = UtilityStakeAccount { mint: key(9), hodler: key(8), amount: 300000000 };
    assert!(sell::will_sell_complete(&mint, &stake, 100000000, 1356));
    assert_eq!(sell::sell(&mut mint, &mut stake, 100000000, 1356), Ok(1356));
    assert_eq!(mint.collateral, 2000000 - 1356);
    assert_eq!(mint.stakes_total, 294948974278 - 100000000);
    assert_eq!(mint.stakes_burnt, 50000000000);
    assert_eq!(stake.amount, 200000000);
}

#[test]
fn sell_refusals_change_nothing() {
    let start = curve(294948974278, 50000000000, 2000000);
    let holder = UtilityStakeAccount { mint: key(9), hodler: key(8), amount: 100000000 };
    let mut mint = start;
    let mut stake = holder;
    assert_eq!(sell::sell(&mut mint, &mut stake, 100000001, 0), Err(ContractError::InsufficientTokenBalance));
    assert_eq!(sell::sell(&mut mint, &mut stake, 100000000, 1357), Err(ContractError::PriceChanged));
    assert_eq!((mint, stake), (start, holder));
    // More scaled-down stakes sold than remain unburnt.
    let thin = curve(50, 10, 7);
    let mut mint = thin;
    let mut stake = UtilityStakeAccount { mint: key(9), hodler: key(8), amount: 100 };
    assert_eq!(sell::sell(&mut mint, &mut stake, 100, 0), Err(ContractError::InsufficientCollateralInContract));
    assert_eq!(mint, thin);
}

#[test]
fn sell_overflows_are_detected() {
    let stake = UtilityStakeAccount { mint: key(9), hodler: key(8), amount: u64::MAX };
    // amount_in * burnt passes 64 bits.
    let burnt = curve(294948974278, 50000000000, 2000000);
    assert!(!sell::will_sell_complete(&burnt, &stake, 10000000000, 0));
    // An empty curve divides by zero.
    let empty = curve(0, 0, 0);
    assert!(!sell::will_sell_complete(&empty, &stake, 1, 0));
    // Not enough stake: refused before the arithmetic.
    let poor = UtilityStakeAccount { mint: key(9), hodler: key(8), amount: 0 };
    assert!(sell::will_sell_complete(&empty, &poor, 1, 0));
}

#[test]
fn buy_then_sell_restores_the_total() {
    let mut mint = initialize::initialize(1781760, 890880, key(2), key(1));
    let before = mint;
    let mut stake = UtilityStakeAccount::default();
    buy::buy(&mut mint, &mut stake, &key(9), &key(8), &key(2), true, 1000000000, 0, 2672640).unwrap();
    let minted = stake.amount;
    let price = sell::sell(&mut mint, &mut stake, minted, 1000000000).unwrap();
    assert_eq!(price, 1000000001);
    assert_eq!(mint.stakes_total, before.stakes_total);
    assert_eq!(mint.collateral, 2672639);
    assert_eq!(stake.amount, 0);
}

#[test]
fn change_admin_and_constraint_signer() {
    let start = curve(10, 0, 10);
    let mut mint = start;
    assert_eq!(change::admin_signer(&mut mint, &key(2), true, key(6)), Err(ContractError::InvalidAdminSigner));
    assert_eq!(change::admin_signer(&mut mint, &key(1), false, key(6)), Err(ContractError::AdminSignerNotSigned));
    assert_eq!(mint, start);
    assert_eq!(change::admin_signer(&mut mint, &key(1), true, key(6)), Ok(()));
    assert_eq!(mint.admin_signer, key(6));
    assert_eq!(change::constraint_signer(&mut mint, &key(1), true, key(7)), Err(ContractError::InvalidAdminSigner));
    assert_eq!(change::constraint_signer(&mut mint, &key(6), true, key(7)), Ok(()));
    assert_eq!(mint.constraint_signer, key(7));
    assert_eq!(mint.stakes_total, 10);
    let mut stake = UtilityStakeAccount::default();
    assert_eq!(
        buy::buy(&mut mint, &mut stake, &key(9), &key(8), &key(2), true, 1, 0, 0),
        Err(ContractError::InvalidConstraintSigner)
    );
}

#[test]
fn wait_time_grows_from_ten_to_sixty_days() {
    assert_eq!(withdrawal::withdrawal_wait_time(0), 864000);
    assert_eq!(withdrawal::withdrawal_wait_time(333333333333), 864000);
    assert_eq!(withdrawal::withdrawal_wait_time(333333333334), 907636);
    assert_eq!(withdrawal::withdrawal_wait_time(33000000000000), 5184000);
    assert_eq!(withdrawal::withdrawal_wait_time(33333333333332), 5227636);
    assert_eq!(withdrawal::withdrawal_wait_time(33333333333333), 5184000);
    assert_eq!(withdrawal::withdrawal_wait_time(u64::MAX), 5184000);
}

#[test]
fn withdrawal_request() {
    let mint = curve(10, 0, 1000);
    let w = withdrawal::initialize(&mint, &key(1), true, 400, String::from("upkeep"), 1700000000).unwrap();
    assert_eq!(w, WithdrawalAccount { amount: 400, deadline: 1700864000, description: String::from("upkeep") });
    assert_eq!(
        withdrawal::initialize(&mint, &key(2), true, 400, String::new(), 1700000000),
        Err(ContractError::InvalidAdminSigner)
    );
    assert_eq!(
        withdrawal::initialize(&mint, &key(1), false, 400, String::new(), 1700000000),
        Err(ContractError::AdminSignerNotSigned)
    );
    assert_eq!(
        withdrawal::initialize(&mint, &key(1), true, 1001, String::new(), 1700000000),
        Err(ContractError::InsufficientCollateralInContract)
    );
    assert!(withdrawal::will_initialize_complete(&mint, &key(1), true, 400, 1700000000));
    // A negative time read as unsigned leaves no room for the wait.
    assert!(!withdrawal::will_initialize_complete(&mint, &key(1), true, 400, -1));
    assert!(withdrawal::will_initialize_complete(&mint, &key(2), true, 400, -1));
    assert_eq!(withdrawal::abort(&mint, &key(1), true), Ok(()));
    assert_eq!(withdrawal::abort(&mint, &key(1), false), Err(ContractError::AdminSignerNotSigned));
    assert_eq!(withdrawal::abort(&mint, &key(3), true), Err(ContractError::InvalidAdminSigner));
}

#[test]
fn withdraw_burns_what_the_collateral_no_longer_backs() {
    let start = curve(294948974278, 0, 2000000);
    let w = WithdrawalAccount { amount: 500000, deadline: 1000, description: String::new() };
    let mut mint = start;
    assert!(withdrawal::will_withdraw_complete(&mint, &w, &key(1), 1000));
    let r = withdrawal::withdraw(&mut mint, &w, &key(1), 1000);
    assert_eq!(r, Ok(UtilityWithdrawEvent { stakes_burnt: 82816939923, collateral: 1500000 }));
    assert_eq!(mint.stakes_total, 294948974278);
    assert_eq!(mint.stakes_burnt, 82816939923);
    assert_eq!(mint.stakes_total - mint.stakes_burnt, integer_sqrt(1500000 * K_DIV));
    // Half of the stakes stay when three of twelve lamports stay.
    let mut small = curve(600000000, 0, 12);
    let nine = WithdrawalAccount { amount: 9, deadline: 1000, description: String::new() };
    let r = withdrawal::withdraw(&mut small, &nine, &key(1), 1000);
    assert_eq!(r, Ok(UtilityWithdrawEvent { stakes_burnt: 300000000, collateral: 3 }));
    // The last allowed second.
    let mut mint = start;
    assert!(withdrawal::withdraw(&mut mint, &w, &key(1), 865000).is_ok());
}

#[test]
fn withdraw_refusals_change_nothing() {
    let start = curve(294948974278, 0, 2000000);
    let w = WithdrawalAccount { amount: 500000, deadline: 1000, description: String::new() };
    let mut mint = start;
    assert_eq!(withdrawal::withdraw(&mut mint, &w, &key(2), 1000), Err(ContractError::InvalidAdminSigner));
    assert_eq!(withdrawal::withdraw(&mut mint, &w, &key(1), 999), Err(ContractError::StillTimeLeft));
    assert_eq!(withdrawal::withdraw(&mut mint, &w, &key(1), 865001), Err(ContractError::TooLate));
    let big = WithdrawalAccount { amount: 2000001, deadline: 1000, description: String::new() };
    assert_eq!(
        withdrawal::withdraw(&mut mint, &big, &key(1), 1000),
        Err(ContractError::InsufficientCollateralInContract)
    );
    assert_eq!(mint, start);
    // No collateral left to back any stake.
    let empty = curve(10, 0, 0);
    let nothing = WithdrawalAccount { amount: 0, deadline: 0, description: String::new() };
    let mut mint = empty;
    assert_eq!(withdrawal::withdraw(&mut mint, &nothing, &key(1), 0), Err(ContractError::InsufficientStakeInContract));
    assert_eq!(mint, empty);
    // Withdrawing the whole collateral would burn every stake.
    let all = WithdrawalAccount { amount: 2000000, deadline: 1000, description: String::new() };
    let mut mint = start;
    assert_eq!(withdrawal::withdraw(&mut mint, &all, &key(1), 1000), Err(ContractError::InsufficientStakeInContract));
    assert_eq!(mint, start);
}

#[test]
fn withdraw_overflows_are_detected() {
    let w = WithdrawalAccount { amount: 0, deadline: u64::MAX, description: String::new() };
    let mint = curve(294948974278, 0, 2000000);
    assert!(!withdrawal::will_withdraw_complete(&mint, &w, &key(1), -1));
    // The collateral backs more stakes than were issued.
    let short = curve(10, 0, 2000000);
    let now = WithdrawalAccount { amount: 0, deadline: 0, description: String::new() };
    assert!(!withdrawal::will_withdraw_complete(&short, &now, &key(1), 0));
    assert!(withdrawal::will_withdraw_complete(&short, &now, &key(2), 0));
}

#[test]
fn paying_more_issues_more() {
    let start = curve(294948974278, 50000000000, 2000000);
    let mut minted = Vec::new();
    for amount in [1u64, 1000, 500000, 7000000] {
        let mut mint = start;
        let mut stake = UtilityStakeAccount::default();
        buy::buy(&mut mint, &mut stake, &key(4), &key(5), &key(2), true, amount, 0, 0).unwrap();
        minted.push(stake.amount);
    }
    assert!(minted.windows(2).all(|w| w[0] <= w[1]));
}

#[test]
fn selling_more_pays_more() {
    let start = curve(294948974278, 50000000000, 2000000);
    let holder = UtilityStakeAccount { mint: key(9), hodler: key(8), amount: 300000000 };
    let mut prices = Vec::new();
    for amount in [1u64, 1000, 100000000, 300000000] {
        let mut mint = start;
        let mut stake = holder;
        prices.push(sell::sell(&mut mint, &mut stake, amount, 0).unwrap());
    }
    assert!(prices.windows(2).all(|w| w[0] <= w[1]));
}

#[test]
fn buying_keeps_an_unburnt_curve_on_the_curve() {
    let mut mint = initialize::initialize(1781760, 890880, key(2), key(1));
    let mut stake = UtilityStakeAccount::default();
    for amount in [1u64, 123456789, 5000000000] {
        buy::buy(&mut mint, &mut stake, &key(9), &key(8), &key(2), true, amount, 0, 0).unwrap();
        assert_eq!(mint.stakes_total, integer_sqrt(mint.collateral as u128 * K_DIV));
    }
}

#[test]
fn a_requested_withdrawal_waits() {
    let start = curve(294948974278, 0, 2000000);
    for (amount, wait) in [(500000u64, 864000u64), (687500000000, 954000), (33333333333333, 5184000)] {
        let mint = curve(294948974278, 0, amount);
        let w = withdrawal::initialize(&mint, &key(1), true, amount, String::new(), 1000).unwrap();
        assert_eq!(w.deadline, 1000 + wait);
    }
    let w = withdrawal::initialize(&start, &key(1), true, 500000, String::new(), 5000).unwrap();
    let mut mint = start;
    assert_eq!(withdrawal::withdraw(&mut mint, &w, &key(1), 5000), Err(ContractError::StillTimeLeft));
    assert_eq!(withdrawal::withdraw(&mut mint, &w, &key(1), 5000 + 864000 - 1), Err(ContractError::StillTimeLeft));
    assert!(withdrawal::withdraw(&mut mint, &w, &key(1), 5000 + 864000).is_ok());
}

#[test]
fn selling_every_unburnt_stake_empties_the_collateral() {
    let mut mint = curve(100, 60, 7);
    let mut stake = UtilityStakeAccount { mint: key(9), hodler: key(8), amount: 100 };
    assert_eq!(sell::sell(&mut mint, &mut stake, 100, 7), Ok(7));
    assert_eq!(mint.collateral, 0);
    assert_eq!(mint.stakes_total, 0);
}
