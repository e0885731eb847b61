use vstd::prelude::*;
use crate::error::LendingError;
use crate::state::{UserState, VaultState};
use crate::utils::{
    Fraction, FRACTION_ONE, RewardRatio, div_u64_by_f64, get_reward_ratio, mul_u64_by_f32,
    mul_u64_by_ratio, scale_by,
};

verus! {

/// A token account taking part in a transfer.
#[derive(Clone, Copy, Debug, PartialEq, Eq, Structural)]
pub enum Holding {
    /// The user's own token account.
    UserTokens,
    /// The vault's pool of deposited principal.
    VaultPrincipal,
    /// The vault's pool of rewards.
    VaultRewards,
}

/// One token transfer, signed for by the owner of `from` (the user for their
/// own tokens, the vault for its pools).
#[derive(Clone, Copy, Debug, PartialEq, Eq, Structural)]
pub struct TokenTransfer {
    pub from: Holding,
    pub to: Holding,
    pub amount: u64,
}

/// What an accepted operation asks for: the transfers to perform, in order,
/// and the records to store once every one of them has gone through.
pub struct Plan {
    pub transfers: Vec<TokenTransfer>,
    pub vault: VaultState,
    pub user: UserState,
}

/// The mathematical view of a [`Plan`].
pub struct PlanView {
    pub transfers: Seq<TokenTransfer>,
    pub vault: VaultState,
    pub user: UserState,
}

impl View for Plan {
    type V = PlanView;

    open spec fn view(&self) -> PlanView {
        PlanView { transfers: self.transfers@, vault: self.vault, user: self.user }
    }
}

/// `r` is the executable form of the expected outcome `expected`.
pub open spec fn plan_matches(
    r: Result<Plan, LendingError>,
    expected: Result<PlanView, LendingError>,
) -> bool {
    match r {
        Ok(p) => expected == Ok::<PlanView, LendingError>(p@),
        Err(e) => expected == Err::<PlanView, LendingError>(e),
    }
}

/// Creates the record of a new vault, after checking both rates.
///
/// The checks run in a fixed order: the interest rate's upper bound, its
/// lower bound, then the borrow fraction's upper and lower bounds.
pub fn create_vault(interest_rate: Fraction, max_borrow_percentage: Fraction) -> (r: Result<
    VaultState,
    LendingError,
>)
    ensures
        r is Ok <==> interest_rate.in_unit_range() && max_borrow_percentage.in_unit_range(),
        !interest_rate.in_unit_range() ==> r == Err::<VaultState, LendingError>(
            LendingError::InterestRateOutOfBounds,
        ),
        interest_rate.in_unit_range() && !max_borrow_percentage.in_unit_range() ==> r == Err::<
            VaultState,
            LendingError,
        >(LendingError::BorrowMaxOutOfBounds),
        r matches Ok(v) ==> {
            &&& v.total_deposits == 0
            &&& v.reward_factor == 1
            &&& v.interest_rate == interest_rate
            &&& v.borrow_percentage_per_user == max_borrow_percentage
            &&& v.wf()
        },
{
    if interest_rate.units > FRACTION_ONE {
        return Err(LendingError::InterestRateOutOfBounds);
    }
    if interest_rate.units < 0 {
        return Err(LendingError::InterestRateOutOfBounds);
    }
    if max_borrow_percentage.units > FRACTION_ONE {
        return Err(LendingError::BorrowMaxOutOfBounds);
    }
    if max_borrow_percentage.units < 0 {
        return Err(LendingError::BorrowMaxOutOfBounds);
    }
    Ok(
        VaultState {
            total_deposits: 0,
            interest_rate,
            borrow_percentage_per_user: max_borrow_percentage,
            reward_factor: 1,
        },
    )
}

/// The ratio a deposit adds to the reward factor per token: the vault's
/// reward ratio, or one half while the vault holds no deposits.
pub open spec fn deposit_ratio(v: VaultState) -> RewardRatio {
    if v.total_deposits == 0 {
        RewardRatio { numerator: 1, denominator: 2 }
    } else {
        RewardRatio { numerator: v.total_deposits, denominator: v.reward_factor }
    }
}

/// How much a deposit of `amount` adds to the reward factor, rounded down.
pub open spec fn reward_factor_growth(v: VaultState, amount: int) -> int {
    amount * (deposit_ratio(v).numerator as int) / (deposit_ratio(v).denominator as int)
}

/// A deposit never shrinks the reward factor.
pub proof fn lemma_growth_nonnegative(v: VaultState, amount: int)
    requires
        v.wf(),
        amount >= 0,
    ensures
        reward_factor_growth(v, amount) >= 0,
{
    let r = deposit_ratio(v);
    vstd::arithmetic::mul::lemma_mul_nonnegative(amount, r.numerator as int);
    vstd::arithmetic::div_mod::lemma_div_pos_is_pos(
        amount * (r.numerator as int),
        r.denominator as int,
    );
}

/// The outcome of depositing `amount`.
pub open spec fn deposit_outcome(v: VaultState, u: UserState, amount: u64) -> Result<
    PlanView,
    LendingError,
> {
    if amount == 0 {
        Err(LendingError::ZeroAmount)
    } else if u.total_deposits + amount > u64::MAX || v.total_deposits + amount > u64::MAX
        || v.reward_factor + reward_factor_growth(v, amount as int) > u64::MAX {
        Err(LendingError::ArithmeticOverflow)
    } else {
        Ok(
            PlanView {
                transfers: seq![
                    TokenTransfer {
                        from: Holding::UserTokens,
                        to: Holding::VaultPrincipal,
                        amount,
                    },
                ],
                vault: VaultState {
                    total_deposits: (v.total_deposits + amount) as u64,
                    reward_factor: (v.reward_factor + reward_factor_growth(
                        v,
                        amount as int,
                    )) as u64,
                    ..v
                },
                user: UserState { total_deposits: (u.total_deposits + amount) as u64, ..u },
            },
        )
    }
}

/// Deposits `amount` of the user's tokens into the pool.
///
/// The reward factor grows by `amount` times the reward ratio taken before
/// the deposit (one half while the pool is empty), rounded down.
pub fn deposit(vault_state: &VaultState, user_state: &UserState, amount: u64) -> (r: Result<
    Plan,
    LendingError,
>)
    requires
        vault_state.wf(),
        user_state.wf(),
    ensures
        plan_matches(r, deposit_outcome(*vault_state, *user_state, amount)),
        r matches Ok(p) ==> {
            &&& p.vault.wf()
            &&& p.user.wf()
            &&& p.vault.reward_factor >= vault_state.reward_factor
        },
{
    if amount == 0 {
        return Err(LendingError::ZeroAmount);
    }
    if user_state.total_deposits > u64::MAX - amount {
        return Err(LendingError::ArithmeticOverflow);
    }
    let user_deposits = user_state.total_deposits + amount;

    let mut reward_ratio = get_reward_ratio(vault_state);
    if reward_ratio.numerator == 0 {
        reward_ratio = RewardRatio { numerator: 1, denominator: 2 };
    }
    if vault_state.total_deposits > u64::MAX - amount {
        return Err(LendingError::ArithmeticOverflow);
    }
    let vault_deposits = vault_state.total_deposits + amount;
    let growth = mul_u64_by_ratio(amount, reward_ratio);
    proof {
        lemma_growth_nonnegative(*vault_state, amount as int);
    }
    if growth > (u64::MAX - vault_state.reward_factor) as u128 {
        return Err(LendingError::ArithmeticOverflow);
    }
    let reward_factor = vault_state.reward_factor + growth as u64;

    let mut transfers: Vec<TokenTransfer> = Vec::new();
    transfers.push(TokenTransfer { from: Holding::UserTokens, to: Holding::VaultPrincipal, amount });
    let plan = Plan {
        transfers,
        vault: VaultState { total_deposits: vault_deposits, reward_factor, ..*vault_state },
        user: UserState { total_deposits: user_deposits, ..*user_state },
    };
    proof {
        assert(plan@.transfers =~= deposit_outcome(*vault_state, *user_state, amount)->Ok_0.transfers);
    }
    Ok(plan)
}

/// The most a user may have borrowed: their deposits times the vault's
/// borrow fraction, rounded down.
pub open spec fn borrow_ceiling(v: VaultState, u: UserState) -> int {
    scale_by(u.total_deposits as int, v.borrow_percentage_per_user)
}

/// The outcome of borrowing `amount`.
pub open spec fn borrow_outcome(v: VaultState, u: UserState, amount: u64) -> Result<
    PlanView,
    LendingError,
> {
    let owed = u.amount_to_repay + amount + scale_by(amount as int, v.interest_rate);
    if u.total_borrows + amount > borrow_ceiling(v, u) {
        Err(LendingError::CannotBorrowOverMax)
    } else if owed > u64::MAX {
        Err(LendingError::ArithmeticOverflow)
    } else {
        Ok(
            PlanView {
                transfers: seq![
                    TokenTransfer {
                        from: Holding::VaultPrincipal,
                        to: Holding::UserTokens,
                        amount,
                    },
                ],
                vault: v,
                user: UserState {
                    total_borrows: (u.total_borrows + amount) as u64,
                    amount_to_repay: owed as u64,
                    ..u
                },
            },
        )
    }
}

/// Lends `amount` from the pool to the user.
///
/// The user's outstanding borrows may not exceed their borrow ceiling
/// afterwards; what they owe grows by `amount` plus interest on it at the
/// vault's rate, rounded down.
pub fn borrow(vault_state: &VaultState, user_state: &UserState, amount: u64) -> (r: Result<
    Plan,
    LendingError,
>)
    requires
        vault_state.wf(),
        user_state.wf(),
    ensures
        plan_matches(r, borrow_outcome(*vault_state, *user_state, amount)),
        r matches Ok(p) ==> {
            &&& p.vault.wf()
            &&& p.user.wf()
            &&& p.user.total_borrows <= borrow_ceiling(*vault_state, *user_state)
        },
{
    let total_borrow_after = user_state.total_borrows as u128 + amount as u128;
    let max_user_borrows = mul_u64_by_f32(
        user_state.total_deposits,
        vault_state.borrow_percentage_per_user,
    );
    if total_borrow_after > max_user_borrows as u128 {
        return Err(LendingError::CannotBorrowOverMax);
    }
    let interest = mul_u64_by_f32(amount, vault_state.interest_rate);
    if user_state.amount_to_repay as u128 + amount as u128 + interest as u128
        > u64::MAX as u128 {
        return Err(LendingError::ArithmeticOverflow);
    }
    let mut transfers: Vec<TokenTransfer> = Vec::new();
    transfers.push(TokenTransfer { from: Holding::VaultPrincipal, to: Holding::UserTokens, amount });
    let plan = Plan {
        transfers,
        vault: *vault_state,
        user: UserState {
            total_borrows: total_borrow_after as u64,
            amount_to_repay: user_state.amount_to_repay + amount + interest,
            ..*user_state
        },
    };
    proof {
        assert(plan@.transfers =~= borrow_outcome(*vault_state, *user_state, amount)->Ok_0.transfers);
    }
    Ok(plan)
}

/// The share of a repayment of `amount` that funds rewards: `amount` times
/// the interest fraction of what the user owes, rounded down.
pub open spec fn repay_reward_part(u: UserState, amount: int) -> int {
    if u.amount_to_repay == 0 {
        0
    } else {
        amount * (u.amount_to_repay - u.total_borrows) / (u.amount_to_repay as int)
    }
}

/// The outcome of repaying `amount`.
pub open spec fn repay_outcome(v: VaultState, u: UserState, amount: u64) -> Result<
    PlanView,
    LendingError,
> {
    let rewards = repay_reward_part(u, amount as int);
    let principal = amount - rewards;
    if amount > u.amount_to_repay {
        Err(LendingError::RepayOverDebt)
    } else {
        Ok(
            PlanView {
                transfers: seq![
                    TokenTransfer {
                        from: Holding::UserTokens,
                        to: Holding::VaultPrincipal,
                        amount: principal as u64,
                    },
                    TokenTransfer {
                        from: Holding::UserTokens,
                        to: Holding::VaultRewards,
                        amount: rewards as u64,
                    },
                ],
                vault: v,
                user: UserState {
                    total_borrows: (u.total_borrows - principal) as u64,
                    amount_to_repay: (u.amount_to_repay - amount) as u64,
                    ..u
                },
            },
        )
    }
}

/// Bounds on the split of a repayment of `a` out of `owed`, of which
/// `principal` is borrowed principal: the reward part `q` lies in
/// `[a - principal, owed - principal]` and in `[0, a]`.
pub proof fn lemma_repay_split(a: int, principal: int, owed: int)
    requires
        0 <= principal <= owed,
        0 <= a <= owed,
        0 < owed,
    ensures
        0 <= a * (owed - principal) / owed <= a,
        a - principal <= a * (owed - principal) / owed <= owed - principal,
{
    let q = a * (owed - principal) / owed;
    crate::utils::lemma_mul_div_within(a, owed - principal, owed);
    crate::utils::lemma_mul_div_within(owed - principal, a, owed);
    vstd::arithmetic::mul::lemma_mul_is_commutative(a, owed - principal);
    assert((a - principal) * owed <= a * (owed - principal)) by (nonlinear_arith)
        requires
            0 <= principal <= owed,
            0 <= a <= owed,
    ;
    if a - principal > 0 {
        vstd::arithmetic::div_mod::lemma_div_is_ordered(
            (a - principal) * owed,
            a * (owed - principal),
            owed,
        );
        vstd::arithmetic::div_mod::lemma_div_by_multiple(a - principal, owed);
    }
}

/// Takes a repayment of `amount` from the user.
///
/// The part that stands for interest goes to the reward pool, the rest to
/// the principal pool; the interest part is `amount` times the interest
/// fraction of what the user owes, rounded down. What the user owes drops by
/// `amount` and their outstanding borrows by the principal part.
pub fn repay(vault_state: &VaultState, user_state: &UserState, amount: u64) -> (r: Result<
    Plan,
    LendingError,
>)
    requires
        vault_state.wf(),
        user_state.wf(),
    ensures
        plan_matches(r, repay_outcome(*vault_state, *user_state, amount)),
        r matches Ok(p) ==> p.vault.wf() && p.user.wf(),
{
    if amount > user_state.amount_to_repay {
        return Err(LendingError::RepayOverDebt);
    }
    let owed = user_state.amount_to_repay;
    let borrowed = user_state.total_borrows;
    let part_for_rewards: u64 = if owed == 0 {
        0
    } else {
        proof {
            lemma_repay_split(amount as int, borrowed as int, owed as int);
        }
        mul_u64_by_ratio(amount, RewardRatio { numerator: owed - borrowed, denominator: owed })
            as u64
    };
    let part_for_vault = amount - part_for_rewards;

    let mut transfers: Vec<TokenTransfer> = Vec::new();
    transfers.push(
        TokenTransfer {
            from: Holding::UserTokens,
            to: Holding::VaultPrincipal,
            amount: part_for_vault,
        },
    );
    transfers.push(
        TokenTransfer {
            from: Holding::UserTokens,
            to: Holding::VaultRewards,
            amount: part_for_rewards,
        },
    );
    let plan = Plan {
        transfers,
        vault: *vault_state,
        user: UserState {
            total_borrows: borrowed - part_for_vault,
            amount_to_repay: owed - amount,
            ..*user_state
        },
    };
    proof {
        assert(plan@.transfers =~= repay_outcome(*vault_state, *user_state, amount)->Ok_0.transfers);
    }
    Ok(plan)
}

/// The rewards paid out on withdrawing `amount`: `amount` divided by the
/// reward ratio `total_deposits / reward_factor`, rounded down.
pub open spec fn withdraw_reward(v: VaultState, amount: int) -> int {
    amount * (v.reward_factor as int) / (v.total_deposits as int)
}

/// The outcome of withdrawing `amount`.
pub open spec fn withdraw_outcome(v: VaultState, u: UserState, amount: u64) -> Result<
    PlanView,
    LendingError,
> {
    let rewards = withdraw_reward(v, amount as int);
    if u.total_borrows != 0 {
        Err(LendingError::WithdrawWithBorrows)
    } else if amount > u.total_deposits || amount > v.total_deposits {
        Err(LendingError::WithdrawOverDeposits)
    } else if v.total_deposits == 0 {
        Err(LendingError::DivisionByZero)
    } else {
        Ok(
            PlanView {
                transfers: seq![
                    TokenTransfer {
                        from: Holding::VaultPrincipal,
                        to: Holding::UserTokens,
                        amount,
                    },
                    TokenTransfer {
                        from: Holding::VaultRewards,
                        to: Holding::UserTokens,
                        amount: rewards as u64,
                    },
                ],
                vault: VaultState { total_deposits: (v.total_deposits - amount) as u64, ..v },
                user: UserState { total_deposits: (u.total_deposits - amount) as u64, ..u },
            },
        )
    }
}

/// Returns `amount` of the user's principal, together with their rewards.
///
/// Only a user with no outstanding borrows may withdraw. The rewards are
/// `amount` divided by the vault's reward ratio, rounded down; a zero ratio
/// is refused rather than divided by. Since no more than the vault's deposits
/// can be withdrawn, the rewards never exceed the reward factor.
pub fn withdraw(vault_state: &VaultState, user_state: &UserState, amount: u64) -> (r: Result<
    Plan,
    LendingError,
>)
    requires
        vault_state.wf(),
        user_state.wf(),
    ensures
        plan_matches(r, withdraw_outcome(*vault_state, *user_state, amount)),
        r matches Ok(p) ==> {
            &&& p.vault.wf()
            &&& p.user.wf()
            &&& p.transfers@[1].amount <= vault_state.reward_factor
        },
{
    if user_state.total_borrows != 0 {
        return Err(LendingError::WithdrawWithBorrows);
    }
    if amount > user_state.total_deposits || amount > vault_state.total_deposits {
        return Err(LendingError::WithdrawOverDeposits);
    }
    let reward_ratio = get_reward_ratio(vault_state);
    if reward_ratio.numerator == 0 {
        return Err(LendingError::DivisionByZero);
    }
    let amount_rewards = div_u64_by_f64(amount, reward_ratio);
    proof {
        crate::utils::lemma_mul_div_within(
            vault_state.reward_factor as int,
            amount as int,
            vault_state.total_deposits as int,
        );
        vstd::arithmetic::mul::lemma_mul_is_commutative(
            vault_state.reward_factor as int,
            amount as int,
        );
    }
    let mut transfers: Vec<TokenTransfer> = Vec::new();
    transfers.push(TokenTransfer { from: Holding::VaultPrincipal, to: Holding::UserTokens, amount });
    transfers.push(
        TokenTransfer {
            from: Holding::VaultRewards,
            to: Holding::UserTokens,
            amount: amount_rewards as u64,
        },
    );
    let plan = Plan {
        transfers,
        vault: VaultState { total_deposits: vault_state.total_deposits - amount, ..*vault_state },
        user: UserState { total_deposits: user_state.total_deposits - amount, ..*user_state },
    };
    proof {
        assert(plan@.transfers =~= withdraw_outcome(*vault_state, *user_state, amount)->Ok_0.transfers);
    }
    Ok(plan)
}

/// Decides what an operation comes to once its transfers were attempted in
/// order and the first `completed` of them went through.
///
/// All of them: the plan's records are to be stored. None: the operation
/// failed and nothing changed. Some but not all: the records are left as
/// they were and the failure is reported as partial.
pub fn settle(plan: Plan, completed: usize) -> (r: Result<(VaultState, UserState), LendingError>)
    ensures
        completed >= plan.transfers.len() ==> r == Ok::<(VaultState, UserState), LendingError>(
            (plan.vault, plan.user),
        ),
        completed == 0 < plan.transfers.len() ==> r == Err::<(VaultState, UserState), LendingError>(
            LendingError::TransferFailure,
        ),
        0 < completed < plan.transfers.len() ==> r == Err::<
            (VaultState, UserState),
            LendingError,
        >(LendingError::PartialTransferFailure),
{
    if completed >= plan.transfers.len() {
        Ok((plan.vault, plan.user))
    } else if completed == 0 {
        Err(LendingError::TransferFailure)
    } else {
        Err(LendingError::PartialTransferFailure)
    }
}

} // verus!
