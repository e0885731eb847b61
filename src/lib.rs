//! Accounting core of a single-asset lending vault.
//!
//! Depositors pool one fungible asset, borrow against a fraction of their own
//! deposits, pay interest on what they borrow, and receive that interest back
//! as rewards in proportion to their share of the pool.
//!
//! Every operation is a pure planner: it reads one vault record and one user
//! record, checks the operation's preconditions, and returns the token
//! transfers to perform together with the records to store once all of those
//! transfers have gone through (see [`lending::settle`]).
//!
//! Rates are fixed-point fractions (billionths). The reward ratio is kept as
//! an exact fraction of two integers; while the pool is empty a deposit uses
//! the ratio one half in its place. A repayment is split in proportion to the
//! interest share of what the user still owes.

pub mod error;
pub mod laws;
pub mod lending;
pub mod state;
pub mod utils;

pub use error::LendingError;
pub use lending::{
    borrow, create_vault, deposit, repay, settle, withdraw, Holding, Plan, TokenTransfer,
};
pub use state::{UserState, VaultState};
pub use utils::{
    div_u64_by_f64, get_reward_ratio, mul_u64_by_f32, mul_u64_by_ratio, Fraction, RewardRatio,
    FRACTION_ONE,
};
