//! Fixed-point kernel: overflow-checked products, truncating quotients and
//! powers of ten in 128 bits, and narrowing to 64 bits.
//!
//! A ratio is applied by multiplying first and dividing last, with the
//! product scaled up by `PRECISION` in between. The lemmas at the end show
//! that this scaling never changes a truncated quotient, so the contracts of
//! the callers can state their results without it.
use vstd::prelude::*;
use vstd::arithmetic::div_mod::{lemma_div_denominator, lemma_div_multiples_vanish_quotient};
use vstd::arithmetic::mul::{lemma_mul_is_commutative, lemma_mul_nonnegative};
use vstd::arithmetic::power::{pow, lemma_pow0, lemma_pow_positive, lemma_pow_increases};
use crate::{ErrorCode, PRECISION};

verus! {

/// Ten to the power `exp`.
pub open spec fn pow10(exp: nat) -> int {
    pow(10, exp)
}

/// Whether `v` fits in 128 bits.
pub open spec fn fits_u128(v: int) -> bool {
    0 <= v <= u128::MAX
}

/// Whether `v` fits in 64 bits.
pub open spec fn fits_u64(v: int) -> bool {
    0 <= v <= u64::MAX
}

/// `a * b`, or `MathOverflow` when the product needs more than 128 bits.
pub fn checked_product(a: u128, b: u128) -> (r: Result<u128, ErrorCode>)
    ensures
        fits_u128(a * b) ==> r == Ok::<u128, ErrorCode>((a * b) as u128),
        !fits_u128(a * b) ==> r == Err::<u128, ErrorCode>(ErrorCode::MathOverflow),
{
    match a.checked_mul(b) {
        Some(p) => Ok(p),
        None => Err(ErrorCode::MathOverflow),
    }
}

/// `a / d` truncated, or `MathOverflow` when `d` is zero.
pub fn checked_quotient(a: u128, d: u128) -> (r: Result<u128, ErrorCode>)
    ensures
        d != 0 ==> r == Ok::<u128, ErrorCode>((a / d) as u128),
        d == 0 ==> r == Err::<u128, ErrorCode>(ErrorCode::MathOverflow),
{
    if d == 0 {
        Err(ErrorCode::MathOverflow)
    } else {
        Ok(a / d)
    }
}

/// `v` in 64 bits, or `MathOverflow` when it does not fit.
pub fn narrow(v: u128) -> (r: Result<u64, ErrorCode>)
    ensures
        fits_u64(v as int) ==> r == Ok::<u64, ErrorCode>(v as u64),
        !fits_u64(v as int) ==> r == Err::<u64, ErrorCode>(ErrorCode::MathOverflow),
{
    if v <= u64::MAX as u128 {
        Ok(v as u64)
    } else {
        Err(ErrorCode::MathOverflow)
    }
}

/// The size of `v` without its sign.
pub fn magnitude(v: i64) -> (r: u64)
    ensures
        r == if v >= 0 {
            v as int
        } else {
            -(v as int)
        },
{
    if v >= 0 {
        v as u64
    } else if v == i64::MIN {
        9_223_372_036_854_775_808u64
    } else {
        (-v) as u64
    }
}

/// Ten to the power `exp`, or `MathOverflow` when it needs more than 128 bits.
pub fn power_of_ten(exp: u32) -> (r: Result<u128, ErrorCode>)
    ensures
        fits_u128(pow10(exp as nat)) ==> r == Ok::<u128, ErrorCode>(pow10(exp as nat) as u128),
        !fits_u128(pow10(exp as nat)) ==> r == Err::<u128, ErrorCode>(ErrorCode::MathOverflow),
{
    let mut acc: u128 = 1;
    let mut i: u32 = 0;
    proof {
        lemma_pow0(10);
    }
    while i < exp
        invariant
            i <= exp,
            acc == pow10(i as nat),
        decreases exp - i,
    {
        proof {
            lemma_pow10_step(i as nat);
        }
        match acc.checked_mul(10) {
            Some(next) => {
                acc = next;
            },
            None => {
                proof {
                    lemma_pow_increases(10, (i + 1) as nat, exp as nat);
                }
                return Err(ErrorCode::MathOverflow);
            },
        }
        i = i + 1;
    }
    Ok(acc)
}

/// `x * y * PRECISION / d`: the product scaled up, then divided, truncated.
/// `MathOverflow` when the scaled product needs more than 128 bits or `d` is
/// zero.
pub fn scaled_mul_div(x: u128, y: u128, d: u128) -> (r: Result<u128, ErrorCode>)
    ensures
        fits_u128(x * y * PRECISION) && d != 0 ==> r == Ok::<u128, ErrorCode>(
            (x * y * PRECISION / (d as int)) as u128,
        ),
        !(fits_u128(x * y * PRECISION) && d != 0) ==> r == Err::<u128, ErrorCode>(
            ErrorCode::MathOverflow,
        ),
{
    proof {
        lemma_scaling_grows(x * y);
    }
    let product = checked_product(x, y)?;
    let scaled = checked_product(product, PRECISION)?;
    checked_quotient(scaled, d)
}

/// `v / PRECISION`: a scaled value brought back to its unit.
pub fn unscaled(v: u128) -> (r: u128)
    ensures
        r == v / PRECISION,
{
    v / PRECISION
}

/// One more factor of ten.
pub proof fn lemma_pow10_step(n: nat)
    ensures
        pow10(n + 1) == 10 * pow10(n),
        pow10(n) >= 1,
{
    reveal(pow);
    lemma_pow_positive(10, n);
}

/// A value is never larger than itself scaled up.
pub proof fn lemma_scaling_grows(n: int)
    requires
        0 <= n,
    ensures
        n <= n * PRECISION,
{
    assert(n <= n * 1_000_000) by (nonlinear_arith)
        requires
            0 <= n,
    ;
}

/// Scaling the numerator by `PRECISION` before a division and dividing the
/// quotient by `PRECISION` afterwards gives the plain truncated quotient.
pub proof fn lemma_scaled_quotient(n: int, d: int)
    requires
        0 <= n,
        0 < d,
    ensures
        (n * PRECISION / d) / (PRECISION as int) == n / d,
{
    let p = PRECISION as int;
    lemma_mul_nonnegative(n, p);
    lemma_div_denominator(n * p, d, p);
    lemma_div_multiples_vanish_quotient(p, n, d);
    lemma_mul_is_commutative(n, p);
    lemma_mul_is_commutative(d, p);
}

} // verus!
