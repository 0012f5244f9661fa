//! Constant-product pricing of a trade of asset X for asset Y.
use vstd::prelude::*;
use vstd::arithmetic::div_mod::{lemma_div_is_ordered_by_denominator, lemma_fundamental_div_mod};
use crate::error::AmmError;

verus! {

/// What a trade of `amount_in` of asset X returns from reserves `(x, y)`:
/// `y - floor(x * y / (x + amount_in))`.
pub open spec fn swap_output(x: int, y: int, amount_in: int) -> int {
    y - (x * y) / (x + amount_in)
}

/// The quote is computable without leaving the 64-bit range.
pub open spec fn quote_fits(x: u64, y: u64, amount_in: u64) -> bool {
    x * y <= u64::MAX && x + amount_in <= u64::MAX
}

proof fn lemma_output_bounds(x: int, y: int, a: int)
    requires
        0 <= x,
        0 <= y,
        0 < a,
    ensures
        0 <= (x * y) / (x + a) <= y,
        0 <= swap_output(x, y, a) <= y,
        (x + a) * ((x * y) / (x + a)) <= x * y,
{
    let d = x + a;
    assert(0 <= x * y) by (nonlinear_arith)
        requires
            0 <= x,
            0 <= y,
    ;
    assert(x * y <= d * y) by (nonlinear_arith)
        requires
            0 <= x <= d,
            0 <= y,
    ;
    lemma_fundamental_div_mod(x * y, d);
    let q = (x * y) / d;
    assert(0 <= q) by (nonlinear_arith)
        requires
            0 <= x * y,
            0 < d,
            q == (x * y) / d,
    ;
    assert(q <= y) by (nonlinear_arith)
        requires
            x * y <= d * y,
            0 < d,
            q == (x * y) / d,
            x * y == d * q + (x * y) % d,
            0 <= (x * y) % d,
    ;
    assert(d * q <= x * y) by (nonlinear_arith)
        requires
            x * y == d * q + (x * y) % d,
            0 <= (x * y) % d,
    ;
}

/// Prices a trade of `amount_in` of asset X against reserves `(reserve_x, reserve_y)`.
pub fn quote_swap(reserve_x: u64, reserve_y: u64, amount_in: u64) -> (r: Result<u64, AmmError>)
    ensures
        amount_in == 0 ==> r == Err::<u64, AmmError>(AmmError::ZeroAmount),
        amount_in > 0 && !quote_fits(reserve_x, reserve_y, amount_in) ==> r == Err::<u64, AmmError>(
            AmmError::ArithmeticOverflow,
        ),
        amount_in > 0 && quote_fits(reserve_x, reserve_y, amount_in) ==> r == Ok::<u64, AmmError>(
            swap_output(reserve_x as int, reserve_y as int, amount_in as int) as u64,
        ),
        r matches Ok(out) ==> out <= reserve_y,
{
    if amount_in == 0 {
        return Err(AmmError::ZeroAmount);
    }
    let numerator = match reserve_x.checked_mul(reserve_y) {
        Some(n) => n,
        None => {
            return Err(AmmError::ArithmeticOverflow);
        },
    };
    let denominator = match reserve_x.checked_add(amount_in) {
        Some(d) => d,
        None => {
            return Err(AmmError::ArithmeticOverflow);
        },
    };
    proof {
        lemma_output_bounds(reserve_x as int, reserve_y as int, amount_in as int);
    }
    match reserve_y.checked_sub(numerator / denominator) {
        Some(out) => Ok(out),
        None => Err(AmmError::InvariantViolation),
    }
}

/// A trade never increases the product of the reserves: with `out` the
/// quote for `amount_in`, `(x + amount_in) * (y - out) <= x * y`.
pub proof fn lemma_product_never_increases(x: u64, y: u64, amount_in: u64)
    requires
        amount_in > 0,
    ensures
        0 <= swap_output(x as int, y as int, amount_in as int) <= y,
        (x + amount_in) * (y - swap_output(x as int, y as int, amount_in as int)) <= x * y,
{
    lemma_output_bounds(x as int, y as int, amount_in as int);
}

/// For fixed reserves the quote does not decrease as the amount paid in
/// grows, and it never exceeds the output reserve. It stays strictly below
/// that reserve whenever `x * y >= x + amount_in` (otherwise the floor
/// division yields zero and the whole reserve is quoted).
pub proof fn lemma_quote_monotonic(x: u64, y: u64, a1: u64, a2: u64)
    requires
        0 < a1 <= a2,
    ensures
        swap_output(x as int, y as int, a1 as int) <= swap_output(x as int, y as int, a2 as int),
        swap_output(x as int, y as int, a2 as int) <= y,
        x * y >= x + a2 ==> swap_output(x as int, y as int, a2 as int) < y,
{
    lemma_output_bounds(x as int, y as int, a1 as int);
    lemma_output_bounds(x as int, y as int, a2 as int);
    let n = x as int * y as int;
    assert(0 <= n) by (nonlinear_arith)
        requires
            n == x as int * y as int,
    ;
    lemma_div_is_ordered_by_denominator(n, x + a1, x + a2);
    if n >= x + a2 {
        let d = x + a2;
        lemma_fundamental_div_mod(n, d);
        assert(n / d >= 1) by (nonlinear_arith)
            requires
                n >= d,
                d > 0,
                n == d * (n / d) + n % d,
                n % d < d,
        ;
    }
}

} // verus!
