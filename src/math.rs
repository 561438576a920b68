//! Fixed-point and constant-product arithmetic.
use vstd::prelude::*;

verus! {

/// `value` scaled by `bps` basis points, rounded down.
pub open spec fn scale_bps(value: int, bps: int) -> int {
    value * bps / 10000
}

/// What is left of `amount` once a fee of `fee_bps` basis points is taken.
pub open spec fn fee_adjusted(amount: int, fee_bps: int) -> int {
    scale_bps(amount, 10000 - fee_bps)
}

/// Output of a constant-product trade: what leaves the `reserve_out` side when
/// `adjusted_in` enters the `reserve_in` side, with the new output reserve
/// rounded down.
pub open spec fn curve_out(reserve_in: int, reserve_out: int, adjusted_in: int) -> int {
    reserve_out - (reserve_in * reserve_out) / (reserve_in + adjusted_in)
}

/// `r` is the integer square root of `n`.
pub open spec fn is_integer_sqrt(r: int, n: int) -> bool {
    r * r <= n < (r + 1) * (r + 1)
}

/// The product of two 64-bit values fits in 128 bits, with room for one more.
pub proof fn lemma_wide_mul(a: u64, b: u64)
    ensures
        0 <= a * b <= u64::MAX * u64::MAX,
        u64::MAX * u64::MAX < u128::MAX,
{
    assert(0 <= a * b <= u64::MAX * u64::MAX) by (nonlinear_arith)
        requires
            a <= u64::MAX,
            b <= u64::MAX,
    ;
}

/// `value * bps / 10000`, computed without overflow.
pub fn apply_bps(value: u64, bps: u64) -> (r: u64)
    requires
        bps <= 10000,
    ensures
        r == scale_bps(value as int, bps as int),
        r <= value,
{
    proof {
        lemma_wide_mul(value, bps);
    }
    let wide: u128 = (value as u128) * (bps as u128);
    let scaled: u128 = wide / 10000;
    proof {
        assert(value * bps <= value * 10000) by (nonlinear_arith)
            requires
                bps <= 10000,
        ;
    }
    scaled as u64
}

/// The new output reserve of a trade, and so its output, lie between zero and
/// the output reserve.
pub proof fn lemma_curve_out_bounded(reserve_in: int, reserve_out: int, adjusted_in: int)
    requires
        reserve_in >= 0,
        reserve_out >= 0,
        adjusted_in >= 0,
        reserve_in + adjusted_in > 0,
    ensures
        0 <= (reserve_in * reserve_out) / (reserve_in + adjusted_in) <= reserve_out,
        0 <= curve_out(reserve_in, reserve_out, adjusted_in) <= reserve_out,
{
    let d = reserve_in + adjusted_in;
    let k = reserve_in * reserve_out;
    let q = k / d;
    vstd::arithmetic::div_mod::lemma_fundamental_div_mod(k, d);
    vstd::arithmetic::div_mod::lemma_mod_pos_bound(k, d);
    assert(k >= 0) by (nonlinear_arith)
        requires
            k == reserve_in * reserve_out,
            reserve_in >= 0,
            reserve_out >= 0,
    ;
    assert(0 <= q <= reserve_out) by (nonlinear_arith)
        requires
            k == d * q + k % d,
            0 <= k % d < d,
            k == reserve_in * reserve_out,
            reserve_in <= d,
            reserve_out >= 0,
            k >= 0,
    ;
}

/// Output of a constant-product trade, or `None` when both the input reserve
/// and the fee-adjusted input are zero.
pub fn constant_product_out(reserve_in: u64, reserve_out: u64, adjusted_in: u64) -> (r: Option<u64>)
    ensures
        r is None <==> reserve_in + adjusted_in == 0,
        r matches Some(v) ==> v == curve_out(reserve_in as int, reserve_out as int, adjusted_in as int),
        r matches Some(v) ==> v <= reserve_out,
{
    let denominator: u128 = (reserve_in as u128) + (adjusted_in as u128);
    if denominator == 0 {
        return None;
    }
    proof {
        lemma_wide_mul(reserve_in, reserve_out);
    }
    let k: u128 = (reserve_in as u128) * (reserve_out as u128);
    let new_reserve_out: u128 = k / denominator;
    proof {
        lemma_curve_out_bounded(reserve_in as int, reserve_out as int, adjusted_in as int);
    }
    Some(((reserve_out as u128) - new_reserve_out) as u64)
}

/// One Newton step from `x` stays at or above the integer square root of `n`.
proof fn lemma_newton_step_stays_above(n: int, x: int)
    requires
        n >= 0,
        x > 0,
    ensures
        n < ((x + n / x) / 2 + 1) * ((x + n / x) / 2 + 1),
{
    let q = n / x;
    let r = n % x;
    let y = (x + q) / 2;
    vstd::arithmetic::div_mod::lemma_fundamental_div_mod(n, x);
    vstd::arithmetic::div_mod::lemma_mod_pos_bound(n, x);
    assert(2 * y + 2 >= x + q + 1);
    assert(n < (y + 1) * (y + 1)) by (nonlinear_arith)
        requires
            n == x * q + r,
            0 <= r < x,
            2 * y + 2 >= x + q + 1,
            y >= 0,
            q >= 0,
    {
        assert((x + q + 1) * (x + q + 1) == (x - q - 1) * (x - q - 1) + 4 * x * q + 4 * x);
        assert((2 * y + 2) * (2 * y + 2) >= (x + q + 1) * (x + q + 1));
    }
}

/// Integer square root by Newton's method: start from `(n + 1) / 2` and step
/// `x -> (x + n / x) / 2` while the value decreases; below 2, `n` itself.
pub fn integer_sqrt(n: u128) -> (r: u128)
    requires
        n < u128::MAX,
    ensures
        is_integer_sqrt(r as int, n as int),
{
    if n < 2 {
        assert(n * n <= n < (n + 1) * (n + 1)) by (nonlinear_arith)
            requires
                n < 2,
        ;
        return n;
    }
    let mut x: u128 = n;
    let mut y: u128 = (x + 1) / 2;
    proof {
        assert(n / n == 1) by (nonlinear_arith)
            requires
                n >= 2,
        ;
        assert(n < (n + 1) * (n + 1)) by (nonlinear_arith)
            requires
                n >= 2,
        ;
    }
    while y < x
        invariant
            2 <= n,
            0 < x <= n,
            n < u128::MAX,
            y == (x + n / x) / 2,
            n < (x + 1) * (x + 1),
        decreases x,
    {
        proof {
            lemma_newton_step_stays_above(n as int, x as int);
            assert(y > 0) by (nonlinear_arith)
                requires
                    n < (y + 1) * (y + 1),
                    n >= 2,
                    y >= 0,
            ;
            let q = n / y;
            vstd::arithmetic::div_mod::lemma_fundamental_div_mod(n as int, y as int);
            vstd::arithmetic::div_mod::lemma_mod_pos_bound(n as int, y as int);
            assert(y + q <= n + 1) by (nonlinear_arith)
                requires
                    n == y * q + n % y,
                    0 <= n % y,
                    1 <= y <= n,
                    q >= 0,
            {
                if q >= 1 {
                    assert((q - 1) * (y - 1) >= 0);
                }
            }
        }
        x = y;
        y = (x + n / x) / 2;
    }
    proof {
        let q = n / x;
        vstd::arithmetic::div_mod::lemma_fundamental_div_mod(n as int, x as int);
        vstd::arithmetic::div_mod::lemma_mod_pos_bound(n as int, x as int);
        assert(x * x <= n) by (nonlinear_arith)
            requires
                n == x * q + n % x,
                0 <= n % x,
                x <= q,
                x > 0,
        ;
    }
    x
}

} // verus!
