//! Platform-fee arithmetic.
//!
//! Fees are charged in basis points: `floor(amount * bps / 10000)` of a
//! payment goes to the platform, the rest to the payee. A valid rate is below
//! 10000, so the fee never exceeds the amount.

use vstd::prelude::*;

use vstd::arithmetic::div_mod::{
    lemma_div_is_ordered, lemma_div_multiples_vanish, lemma_div_pos_is_pos,
};
use vstd::arithmetic::mul::{lemma_mul_inequality, lemma_mul_is_commutative, lemma_mul_nonnegative};

verus! {

/// The largest single amount the fee arithmetic accepts: anything above it
/// could overflow `i128` when scaled by a basis-point rate. This is
/// `i128::MAX / 10000`, written out because a constant initializer cannot
/// divide.
pub const MAX_FEE_BASE: i128 = 17014118346046923173168730371588410;

/// The platform's cut of `amount` at `bps` basis points, rounded down.
pub open spec fn fee_of(amount: i128, bps: u32) -> int {
    (amount as int) * (bps as int) / 10000
}

/// What the payee keeps of `amount` at `bps` basis points.
pub open spec fn net_of(amount: i128, bps: u32) -> int {
    amount - fee_of(amount, bps)
}

/// At a valid rate the fee is between zero and the full amount, so the net
/// share is too.
pub proof fn lemma_fee_bounds(amount: i128, bps: u32)
    requires
        0 <= amount,
        bps < 10000,
    ensures
        0 <= fee_of(amount, bps),
        fee_of(amount, bps) <= amount,
        0 <= net_of(amount, bps),
        net_of(amount, bps) <= amount,
{
    let a = amount as int;
    let b = bps as int;
    lemma_mul_nonnegative(a, b);
    lemma_div_pos_is_pos(a * b, 10000);
    lemma_mul_inequality(b, 10000, a);
    lemma_mul_is_commutative(b, a);
    lemma_mul_is_commutative(10000, a);
    lemma_div_is_ordered(a * b, a * 10000, 10000);
    lemma_div_multiples_vanish(a, 10000);
    assert(10000 * a == a * 10000);
}

/// Scaling an amount no larger than [`MAX_FEE_BASE`] by a valid rate stays
/// within `i128`, so the fee can be computed without overflow.
pub proof fn lemma_fee_mul_fits(amount: i128, bps: u32)
    requires
        0 <= amount <= MAX_FEE_BASE,
        bps < 10000,
    ensures
        (amount as int) * (bps as int) <= i128::MAX,
{
    let a = amount as int;
    let b = bps as int;
    lemma_mul_inequality(b, 10000, a);
    lemma_mul_is_commutative(b, a);
    lemma_mul_is_commutative(10000, a);
    lemma_mul_inequality(a, MAX_FEE_BASE as int, 10000);
    assert((MAX_FEE_BASE as int) * 10000 <= i128::MAX);
}

} // verus!
