//! Properties that relate several operations.

use vstd::prelude::*;
use crate::lending::{
    deposit_outcome, repay_outcome, withdraw_outcome, withdraw_reward,
    Holding, TokenTransfer,
};
use crate::error::LendingError;
use crate::state::{UserState, VaultState};

verus! {

/// Two deposits in a row add exactly their sum to the user's and to the
/// vault's deposits, and never lower the reward factor.
pub proof fn lemma_deposits_accumulate(v: VaultState, u: UserState, a: u64, b: u64)
    requires
        v.wf(),
        u.wf(),
    ensures
        deposit_outcome(v, u, a) matches Ok(first) ==> (deposit_outcome(
            first.vault,
            first.user,
            b,
        ) matches Ok(second) ==> {
            &&& second.user.total_deposits == u.total_deposits + a + b
            &&& second.vault.total_deposits == v.total_deposits + a + b
            &&& v.reward_factor <= first.vault.reward_factor <= second.vault.reward_factor
        }),
{
    crate::lending::lemma_growth_nonnegative(v, a as int);
    if let Ok(first) = deposit_outcome(v, u, a) {
        crate::lending::lemma_growth_nonnegative(first.vault, b as int);
    }
}

/// A deposit followed at once by a withdrawal of the same amount, by a user
/// without borrows, always goes through: it gives back the principal and
/// the rewards that the reward factor after the deposit yields, and leaves
/// both records' deposits as they were.
pub proof fn lemma_deposit_withdraw_round_trip(v: VaultState, u: UserState, amount: u64)
    requires
        v.wf(),
        u.wf(),
        u.total_borrows == 0,
    ensures
        deposit_outcome(v, u, amount) matches Ok(d) ==> (withdraw_outcome(
            d.vault,
            d.user,
            amount,
        ) matches Ok(w) && {
            &&& w.transfers == seq![
                TokenTransfer { from: Holding::VaultPrincipal, to: Holding::UserTokens, amount },
                TokenTransfer {
                    from: Holding::VaultRewards,
                    to: Holding::UserTokens,
                    amount: withdraw_reward(d.vault, amount as int) as u64,
                },
            ]
            &&& withdraw_reward(d.vault, amount as int) <= d.vault.reward_factor
            &&& w.vault.total_deposits == v.total_deposits
            &&& w.user.total_deposits == u.total_deposits
            &&& w.vault.reward_factor == d.vault.reward_factor
        }),
{
    if let Ok(d) = deposit_outcome(v, u, amount) {
        crate::utils::lemma_mul_div_within(
            d.vault.reward_factor as int,
            amount as int,
            d.vault.total_deposits as int,
        );
        vstd::arithmetic::mul::lemma_mul_is_commutative(
            d.vault.reward_factor as int,
            amount as int,
        );
    }
}

/// Repaying everything that is owed clears both the debt and the
/// outstanding borrows, the two transferred parts add up to the repayment,
/// and the user may then withdraw.
pub proof fn lemma_full_repay_clears_debt(v: VaultState, u: UserState)
    requires
        v.wf(),
        u.wf(),
    ensures
        repay_outcome(v, u, u.amount_to_repay) matches Ok(p) && {
            &&& p.user.total_borrows == 0
            &&& p.user.amount_to_repay == 0
            &&& p.transfers[0].amount + p.transfers[1].amount == u.amount_to_repay
            &&& forall|x: u64|
                withdraw_outcome(v, p.user, x) != Err::<crate::lending::PlanView, LendingError>(
                    LendingError::WithdrawWithBorrows,
                )
        },
{
    let owed = u.amount_to_repay as int;
    if owed > 0 {
        crate::lending::lemma_repay_split(owed, u.total_borrows as int, owed);
    }
}

/// Any repayment up to what is owed is accepted, is split into two parts
/// that add up to it exactly, and lowers the outstanding borrows by the part
/// that goes to the principal pool.
pub proof fn lemma_repay_parts_sum(v: VaultState, u: UserState, amount: u64)
    requires
        v.wf(),
        u.wf(),
        amount <= u.amount_to_repay,
    ensures
        repay_outcome(v, u, amount) matches Ok(p) && {
            &&& p.transfers[0].amount + p.transfers[1].amount == amount
            &&& p.user.total_borrows == u.total_borrows - p.transfers[0].amount
        },
{
    if u.amount_to_repay > 0 {
        crate::lending::lemma_repay_split(
            amount as int,
            u.total_borrows as int,
            u.amount_to_repay as int,
        );
    }
}

} // verus!
