use vstd::prelude::*;

verus! {

/// Why an operation on a vault was refused.
#[derive(Clone, Copy, Debug, PartialEq, Eq, Structural)]
pub enum LendingError {
    /// The interest rate lies outside `[0, 1]`.
    InterestRateOutOfBounds,
    /// The per-user borrow fraction lies outside `[0, 1]`.
    BorrowMaxOutOfBounds,
    /// The borrow would take the user over their borrow ceiling.
    CannotBorrowOverMax,
    /// The user still has outstanding borrows.
    WithdrawWithBorrows,
    /// A deposit of nothing.
    ZeroAmount,
    /// A repayment larger than what the user owes.
    RepayOverDebt,
    /// A withdrawal larger than the user's or the vault's deposits.
    WithdrawOverDeposits,
    /// The first token transfer of an operation failed; nothing changed.
    TransferFailure,
    /// A later token transfer failed after an earlier one went through; the
    /// records were left as they were and need reconciling by hand.
    PartialTransferFailure,
    /// A result does not fit in 64 bits.
    ArithmeticOverflow,
    /// The reward ratio is zero, so rewards cannot be computed.
    DivisionByZero,
}

} // verus!
