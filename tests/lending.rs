use single_asset_lending::{
    borrow, create_vault, deposit, div_u64_by_f64, get_reward_ratio, mul_u64_by_f32,
    mul_u64_by_ratio, repay, settle, withdraw, Fraction, Holding, LendingError, Plan,
    RewardRatio, TokenTransfer, UserState, VaultState, FRACTION_ONE,
};

fn frac(units: i64) -> Fraction {
    Fraction { units }
}

fn half() -> Fraction {
    frac(FRACTION_ONE / 2)
}

fn vault(total_deposits: u64, reward_factor: u64) -> VaultState {
    VaultState {
        total_deposits,
        interest_rate: frac(FRACTION_ONE / 10),
        borrow_percentage_per_user: half(),
        reward_factor,
    }
}

fn user(total_deposits: u64, total_borrows: u64, amount_to_repay: u64) -> UserState {
    UserState { total_deposits, total_borrows, amount_to_repay }
}

fn empty_user() -> UserState {
    user(0, 0, 0)
}

fn ok(r: Result<Plan, LendingError>) -> Plan {
    match r {
        Ok(p) => p,
        Err(e) => panic!("operation refused: {:?}", e),
    }
}

fn err(r: Result<Plan, LendingError>) -> LendingError {
    match r {
        Ok(_) => panic!("operation accepted"),
        Err(e) => e,
    }
}

#[test]
fn create_vault_with_valid_rates() {
    for (rate, limit) in [(0, 0), (FRACTION_ONE, FRACTION_ONE), (FRACTION_ONE / 10, FRACTION_ONE / 2)] {
        let v = create_vault(frac(rate), frac(limit)).unwrap();
        assert_eq!(v.total_deposits, 0);
        assert_eq!(v.reward_factor, 1);
        assert_eq!(v.interest_rate, frac(rate));
        assert_eq!(v.borrow_percentage_per_user, frac(limit));
        assert!(v.is_well_formed());
    }
}

#[test]
fn create_vault_refuses_rates_out_of_bounds() {
    assert_eq!(create_vault(frac(FRACTION_ONE + 1), half()), Err(LendingError::InterestRateOutOfBounds));
    assert_eq!(create_vault(frac(-1), half()), Err(LendingError::InterestRateOutOfBounds));
    assert_eq!(create_vault(half(), frac(FRACTION_ONE + 1)), Err(LendingError::BorrowMaxOutOfBounds));
    assert_eq!(create_vault(half(), frac(-1)), Err(LendingError::BorrowMaxOutOfBounds));
}

#[test]
fn create_vault_checks_interest_rate_first() {
    assert_eq!(
        create_vault(frac(-5), frac(FRACTION_ONE * 2)),
        Err(LendingError::InterestRateOutOfBounds)
    );
}

#[test]
fn deposits_accumulate() {
    let v0 = vault(300, 7);
    let u0 = user(20, 0, 0);
    let p1 = ok(deposit(&v0, &u0, 100));
    let p2 = ok(deposit(&p1.vault, &p1.user, 50));
    assert_eq!(p2.user.total_deposits, 170);
    assert_eq!(p2.vault.total_deposits, 450);
    assert!(p1.vault.reward_factor >= v0.reward_factor);
    assert!(p2.vault.reward_factor >= p1.vault.reward_factor);
}

#[test]
fn deposit_into_empty_vault_uses_half_ratio() {
    let v = create_vault(frac(FRACTION_ONE / 10), half()).unwrap();
    let p = ok(deposit(&v, &empty_user(), 1000));
    assert_eq!(p.vault.total_deposits, 1000);
    assert_eq!(p.vault.reward_factor, 501);
    assert_eq!(p.user, user(1000, 0, 0));
    assert_eq!(
        p.transfers,
        vec![TokenTransfer { from: Holding::UserTokens, to: Holding::VaultPrincipal, amount: 1000 }]
    );
}

#[test]
fn deposit_grows_reward_factor_by_reward_ratio() {
    // ratio 1000 / 501; 500 * 1000 / 501 = 998.0...
    let p = ok(deposit(&vault(1000, 501), &empty_user(), 500));
    assert_eq!(p.vault.reward_factor, 1499);
    assert_eq!(p.vault.total_deposits, 1500);
}

#[test]
fn deposit_of_zero_is_refused() {
    assert_eq!(err(deposit(&vault(0, 1), &empty_user(), 0)), LendingError::ZeroAmount);
}

#[test]
fn deposit_overflow_is_refused() {
    assert_eq!(err(deposit(&vault(0, 1), &user(u64::MAX, 0, 0), 1)), LendingError::ArithmeticOverflow);
    assert_eq!(err(deposit(&vault(u64::MAX, 1), &empty_user(), 1)), LendingError::ArithmeticOverflow);
    assert_eq!(err(deposit(&vault(0, u64::MAX), &empty_user(), 2)), LendingError::ArithmeticOverflow);
}

#[test]
fn borrow_up_to_ceiling() {
    let v = vault(1000, 1);
    let u = user(1000, 0, 0);
    let p = ok(borrow(&v, &u, 500));
    assert_eq!(p.user.total_borrows, 500);
    assert_eq!(p.user.amount_to_repay, 550);
    assert_eq!(p.vault, v);
    assert_eq!(
        p.transfers,
        vec![TokenTransfer { from: Holding::VaultPrincipal, to: Holding::UserTokens, amount: 500 }]
    );
    assert_eq!(err(borrow(&p.vault, &p.user, 1)), LendingError::CannotBorrowOverMax);
}

#[test]
fn borrow_ceiling_rounds_down() {
    let v = vault(1001, 1);
    let u = user(1001, 0, 0);
    assert_eq!(err(borrow(&v, &u, 501)), LendingError::CannotBorrowOverMax);
    let p = ok(borrow(&v, &u, 500));
    assert_eq!(p.user.amount_to_repay, 550);
}

#[test]
fn borrow_interest_rounds_down() {
    let p = ok(borrow(&vault(0, 1), &user(100, 0, 0), 19));
    assert_eq!(p.user.amount_to_repay, 19 + 1);
}

#[test]
fn borrow_overflow_is_refused() {
    let u = user(1000, 0, u64::MAX - 5);
    assert_eq!(err(borrow(&vault(0, 1), &u, 10)), LendingError::ArithmeticOverflow);
}

#[test]
fn full_repay_clears_debt() {
    let u = user(1000, 100, 110);
    let p = ok(repay(&vault(1000, 1), &u, 110));
    assert_eq!(p.user.total_borrows, 0);
    assert_eq!(p.user.amount_to_repay, 0);
    assert_eq!(
        p.transfers,
        vec![
            TokenTransfer { from: Holding::UserTokens, to: Holding::VaultPrincipal, amount: 100 },
            TokenTransfer { from: Holding::UserTokens, to: Holding::VaultRewards, amount: 10 },
        ]
    );
    assert_eq!(p.transfers[0].amount + p.transfers[1].amount, 110);
}

#[test]
fn partial_repay_splits_by_interest_share() {
    // interest share 10 / 110 of 55 is 5, rounded down
    let p = ok(repay(&vault(1000, 1), &user(1000, 100, 110), 55));
    assert_eq!(p.transfers[0].amount, 50);
    assert_eq!(p.transfers[1].amount, 5);
    assert_eq!(p.user.total_borrows, 50);
    assert_eq!(p.user.amount_to_repay, 55);
}

#[test]
fn repay_over_debt_is_refused() {
    assert_eq!(err(repay(&vault(0, 1), &user(0, 100, 110), 111)), LendingError::RepayOverDebt);
}

#[test]
fn withdraw_blocked_while_borrowing() {
    let v = vault(1000, 501);
    let u = user(1000, 1, 1);
    assert_eq!(err(withdraw(&v, &u, 10)), LendingError::WithdrawWithBorrows);
    let r = ok(repay(&v, &u, 1));
    assert_eq!(r.user.total_borrows, 0);
    let w = ok(withdraw(&r.vault, &r.user, 10));
    assert_eq!(w.user.total_deposits, 990);
}

#[test]
fn deposit_withdraw_round_trip() {
    let v = create_vault(frac(FRACTION_ONE / 10), half()).unwrap();
    let d = ok(deposit(&v, &empty_user(), 1000));
    let w = ok(withdraw(&d.vault, &d.user, 1000));
    assert_eq!(w.vault.total_deposits, 0);
    assert_eq!(w.user.total_deposits, 0);
    // 1000 divided by the ratio 1000 / 501
    assert_eq!(
        w.transfers,
        vec![
            TokenTransfer { from: Holding::VaultPrincipal, to: Holding::UserTokens, amount: 1000 },
            TokenTransfer { from: Holding::VaultRewards, to: Holding::UserTokens, amount: 501 },
        ]
    );
}

#[test]
fn withdraw_over_deposits_is_refused() {
    assert_eq!(err(withdraw(&vault(1000, 1), &user(10, 0, 0), 11)), LendingError::WithdrawOverDeposits);
    assert_eq!(err(withdraw(&vault(5, 1), &user(10, 0, 0), 6)), LendingError::WithdrawOverDeposits);
}

#[test]
fn withdraw_from_empty_vault_is_division_by_zero() {
    assert_eq!(err(withdraw(&vault(0, 1), &empty_user(), 0)), LendingError::DivisionByZero);
}

#[test]
fn settle_decides_by_completed_transfers() {
    let plan = || ok(repay(&vault(1000, 1), &user(1000, 100, 110), 110));
    let p = plan();
    let expected = (p.vault, p.user);
    assert_eq!(settle(p, 2), Ok(expected));
    assert_eq!(settle(plan(), 0), Err(LendingError::TransferFailure));
    assert_eq!(settle(plan(), 1), Err(LendingError::PartialTransferFailure));
}

#[test]
fn numeric_utilities() {
    assert_eq!(mul_u64_by_f32(1000, half()), 500);
    assert_eq!(mul_u64_by_f32(7, frac(333_333_333)), 2);
    assert_eq!(mul_u64_by_f32(u64::MAX, frac(FRACTION_ONE)), u64::MAX);
    assert_eq!(mul_u64_by_f32(u64::MAX, frac(0)), 0);
    let ratio = RewardRatio { numerator: 3, denominator: 4 };
    assert_eq!(div_u64_by_f64(10, ratio), 13);
    assert_eq!(mul_u64_by_ratio(10, ratio), 7);
    assert_eq!(div_u64_by_f64(u64::MAX, RewardRatio { numerator: 1, denominator: u64::MAX }), (u64::MAX as u128) * (u64::MAX as u128));
    let r = get_reward_ratio(&vault(1000, 501));
    assert_eq!(r, RewardRatio { numerator: 1000, denominator: 501 });
}

#[test]
fn well_formedness_checks() {
    assert!(user(0, 5, 5).is_well_formed());
    assert!(!user(0, 6, 5).is_well_formed());
    assert!(!vault(0, 0).is_well_formed());
    let mut v = vault(0, 1);
    v.interest_rate = frac(FRACTION_ONE + 1);
    assert!(!v.is_well_formed());
}
