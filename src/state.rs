use vstd::prelude::*;
use crate::utils::Fraction;

verus! {

/// The record of one asset pool.
#[derive(Clone, Copy, Debug, PartialEq, Eq, Structural)]
pub struct VaultState {
    /// Principal currently deposited in the pool, over all users.
    pub total_deposits: u64,
    /// Fraction of each borrow charged as interest.
    pub interest_rate: Fraction,
    /// Largest fraction of their own deposits that a user may borrow.
    pub borrow_percentage_per_user: Fraction,
    /// Accumulated denominator of the reward ratio; never zero.
    pub reward_factor: u64,
}

impl VaultState {
    /// Both rates lie in `[0, 1]` and the reward factor is positive.
    pub open spec fn wf(self) -> bool {
        &&& self.interest_rate.in_unit_range()
        &&& self.borrow_percentage_per_user.in_unit_range()
        &&& self.reward_factor > 0
    }

    /// Tests [`VaultState::wf`], for records read back from storage.
    pub fn is_well_formed(&self) -> (r: bool)
        ensures
            r == self.wf(),
    {
        0 <= self.interest_rate.units && self.interest_rate.units <= crate::utils::FRACTION_ONE
            && 0 <= self.borrow_percentage_per_user.units
            && self.borrow_percentage_per_user.units <= crate::utils::FRACTION_ONE
            && self.reward_factor > 0
    }
}

/// The record of one depositor in one vault.
#[derive(Clone, Copy, Debug, PartialEq, Eq, Structural)]
pub struct UserState {
    /// The user's principal currently in the pool.
    pub total_deposits: u64,
    /// Outstanding borrowed principal.
    pub total_borrows: u64,
    /// Principal plus interest still owed.
    pub amount_to_repay: u64,
}

impl UserState {
    /// Outstanding principal never exceeds what is owed.
    pub open spec fn wf(self) -> bool {
        self.total_borrows <= self.amount_to_repay
    }

    /// Tests [`UserState::wf`], for records read back from storage.
    pub fn is_well_formed(&self) -> (r: bool)
        ensures
            r == self.wf(),
    {
        self.total_borrows <= self.amount_to_repay
    }
}

} // verus!
