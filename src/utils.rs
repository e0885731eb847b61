use vstd::prelude::*;

verus! {

/// The fixed-point denominator of a [`Fraction`]: `units == FRACTION_ONE` is 1.
pub const FRACTION_ONE: i64 = 1_000_000_000;

/// A fractional rate, held as a signed count of billionths.
///
/// Rates are only meaningful in `[0, 1]`; values outside that range can be
/// represented so that they can be recognised and refused.
#[derive(Clone, Copy, Debug, PartialEq, Eq, Structural)]
pub struct Fraction {
    pub units: i64,
}

impl Fraction {
    /// The fraction lies in `[0, 1]`.
    pub open spec fn in_unit_range(self) -> bool {
        0 <= self.units <= FRACTION_ONE
    }
}

/// `floor(amount * f)`, exactly.
pub open spec fn scale_by(amount: int, f: Fraction) -> int {
    amount * f.units / (FRACTION_ONE as int)
}

/// For `0 <= b <= c`, the quotient `a * b / c` lies in `[0, a]`.
pub proof fn lemma_mul_div_within(a: int, b: int, c: int)
    requires
        0 <= a,
        0 <= b <= c,
        0 < c,
    ensures
        0 <= a * b / c <= a,
{
    assert(0 <= a * b <= a * c) by (nonlinear_arith)
        requires
            0 <= a,
            0 <= b <= c,
    ;
    vstd::arithmetic::div_mod::lemma_div_is_ordered(a * b, a * c, c);
    vstd::arithmetic::div_mod::lemma_div_by_multiple(a, c);
    vstd::arithmetic::div_mod::lemma_div_pos_is_pos(a * b, c);
}

/// Multiplies a token amount by a rate in `[0, 1]`, rounding down.
pub fn mul_u64_by_f32(a: u64, b: Fraction) -> (r: u64)
    requires
        b.in_unit_range(),
    ensures
        r == scale_by(a as int, b),
        r <= a,
{
    proof {
        lemma_mul_div_within(a as int, b.units as int, FRACTION_ONE as int);
        assert((a as int) * (b.units as int) <= u64::MAX * u64::MAX) by (nonlinear_arith)
            requires
                0 <= b.units <= FRACTION_ONE,
        ;
    }
    let product: u128 = (a as u128) * (b.units as u128);
    (product / (FRACTION_ONE as u128)) as u64
}

} // verus!

verus! {

/// The reward ratio `numerator / denominator`, kept exact.
#[derive(Clone, Copy, Debug, PartialEq, Eq, Structural)]
pub struct RewardRatio {
    pub numerator: u64,
    pub denominator: u64,
}

/// The vault's reward ratio: its deposits over its reward factor.
///
/// The caller must treat a zero ratio (no deposits) before dividing by it.
pub fn get_reward_ratio(vault_state_account: &crate::state::VaultState) -> (r: RewardRatio)
    ensures
        r.numerator == vault_state_account.total_deposits,
        r.denominator == vault_state_account.reward_factor,
{
    RewardRatio {
        numerator: vault_state_account.total_deposits,
        denominator: vault_state_account.reward_factor,
    }
}

/// `floor(a * b / c)` for values that fit in 64 bits, computed in 128 bits.
fn mul_div_u64(a: u64, b: u64, c: u64) -> (r: u128)
    requires
        c > 0,
    ensures
        r == (a as int) * (b as int) / (c as int),
{
    proof {
        vstd::arithmetic::mul::lemma_mul_upper_bound(
            a as int,
            u64::MAX as int,
            b as int,
            u64::MAX as int,
        );
    }
    let product: u128 = (a as u128) * (b as u128);
    product / (c as u128)
}

/// Divides a token amount by a nonzero reward ratio, rounding down.
///
/// The quotient may exceed 64 bits, so it is returned in 128.
pub fn div_u64_by_f64(numerator: u64, denominator: RewardRatio) -> (r: u128)
    requires
        denominator.numerator > 0,
    ensures
        r == (numerator as int) * (denominator.denominator as int) / (denominator.numerator as int),
{
    mul_div_u64(numerator, denominator.denominator, denominator.numerator)
}

/// Multiplies a token amount by a reward ratio with a nonzero denominator,
/// rounding down.
pub fn mul_u64_by_ratio(amount: u64, ratio: RewardRatio) -> (r: u128)
    requires
        ratio.denominator > 0,
    ensures
        r == (amount as int) * (ratio.numerator as int) / (ratio.denominator as int),
{
    mul_div_u64(amount, ratio.numerator, ratio.denominator)
}

} // verus!
