//! Integer helpers behind the fixed-point decimal layer: powers of ten,
//! ceiling division, and an exact multiply-then-divide whose intermediate
//! product does not fit a machine word.

use vstd::prelude::*;

verus! {

use vstd::arithmetic::div_mod::{
    lemma_fundamental_div_mod, lemma_fundamental_div_mod_converse_div, lemma_div_pos_is_pos,
    lemma_mod_bound,
};
use vstd::arithmetic::mul::{lemma_mul_inequality, lemma_mul_upper_bound};

/// 10^e as a mathematical integer.
pub open spec fn pow10(e: nat) -> int
    decreases e,
{
    if e == 0 {
        1
    } else {
        10 * pow10((e - 1) as nat)
    }
}

pub proof fn lemma_pow10_pos(e: nat)
    ensures
        pow10(e) >= 1,
    decreases e,
{
    if e > 0 {
        lemma_pow10_pos((e - 1) as nat);
    }
}

pub proof fn lemma_pow10_mono(a: nat, b: nat)
    requires
        a <= b,
    ensures
        pow10(a) <= pow10(b),
    decreases b,
{
    if a < b {
        lemma_pow10_mono(a, (b - 1) as nat);
        lemma_pow10_pos((b - 1) as nat);
    }
}

/// The powers of ten that the decimal scales of this crate use.
pub proof fn lemma_pow10_values()
    ensures
        pow10(6) == 1_000_000,
        pow10(12) == 1_000_000_000_000,
        pow10(15) == 1_000_000_000_000_000,
        pow10(24) == 1_000_000_000_000_000_000_000_000,
        pow10(30) == 1_000_000_000_000_000_000_000_000_000_000,
{
    reveal_with_fuel(pow10, 31);
}

/// Division of a non-negative numerator rounded towards positive infinity.
pub open spec fn ceil_div(a: int, d: int) -> int {
    (a + d - 1) / d
}

pub proof fn lemma_ceil_div(a: int, d: int)
    requires
        0 <= a,
        0 < d,
    ensures
        ceil_div(a, d) == a / d + if a % d == 0 { 0int } else { 1int },
        a / d <= ceil_div(a, d),
        0 <= ceil_div(a, d),
{
    lemma_fundamental_div_mod(a, d);
    assert(d * (a / d) == (a / d) * d) by (nonlinear_arith);
    if a % d == 0 {
        lemma_fundamental_div_mod_converse_div(a + d - 1, d, a / d, d - 1);
    } else {
        assert((a / d + 1) * d == (a / d) * d + d) by (nonlinear_arith);
        lemma_fundamental_div_mod_converse_div(a + d - 1, d, a / d + 1, a % d - 1);
    }
    lemma_div_pos_is_pos(a, d);
}

/// Floor division is superadditive: dropping two remainders separately
/// never yields more than dropping the remainder of the sum once.
pub proof fn lemma_div_sum_le(x: int, y: int, d: int)
    requires
        0 <= x,
        0 <= y,
        0 < d,
    ensures
        x / d + y / d <= (x + y) / d,
{
    lemma_fundamental_div_mod(x, d);
    lemma_fundamental_div_mod(y, d);
    lemma_fundamental_div_mod(x + y, d);
    lemma_mod_bound(x, d);
    lemma_mod_bound(y, d);
    lemma_mod_bound(x + y, d);
    let k = (x + y) / d - x / d - y / d;
    assert(d * k == x % d + y % d - (x + y) % d) by (nonlinear_arith)
        requires
            x == d * (x / d) + x % d,
            y == d * (y / d) + y % d,
            x + y == d * ((x + y) / d) + (x + y) % d,
            k == (x + y) / d - x / d - y / d,
    ;
    if k < 0 {
        lemma_mul_inequality(k, -1, d);
        assert(false);
    }
}

/// 10^e for the exponents that the decimal scales need.
pub fn pow10_u128(e: u32) -> (r: u128)
    requires
        e <= 30,
    ensures
        r as int == pow10(e as nat),
{
    let mut r: u128 = 1;
    let mut i: u32 = 0;
    while i < e
        invariant
            i <= e <= 30,
            r as int == pow10(i as nat),
        decreases e - i,
    {
        proof {
            lemma_pow10_mono((i + 1) as nat, 30);
            lemma_pow10_values();
        }
        r = r * 10;
        i = i + 1;
    }
    r
}

/// Quotient rounded up, never down.
pub fn div_ceil_u128(a: u128, d: u128) -> (r: u128)
    requires
        0 < d,
    ensures
        r as int == ceil_div(a as int, d as int),
{
    let q: u128 = a / d;
    let rem: u128 = a % d;
    proof {
        lemma_ceil_div(a as int, d as int);
    }
    if rem == 0 {
        q
    } else {
        proof {
            lemma_fundamental_div_mod(a as int, d as int);
            lemma_mul_upper_bound(1, d as int, q as int, q as int);
        }
        q + 1
    }
}

/// One decimal digit of long division: turns a remainder `rr < d` into the
/// quotient digit and remainder of `10 * rr` divided by `d`, without ever
/// forming a product wider than a machine word.
fn mul10_div_rem(rr: u128, d: u128) -> (res: (u128, u128))
    requires
        rr < d,
    ensures
        res.0 * d + res.1 == 10 * rr,
        res.1 < d,
        res.0 <= 9,
{
    let mut s: u128 = rr;
    let mut qd: u128 = 0;
    let mut j: u32 = 0;
    while j < 9
        invariant
            rr < d,
            s < d,
            qd <= j,
            j <= 9,
            qd * d + s == (j + 1) * rr,
        decreases 9 - j,
    {
        proof {
            assert((qd + 1) * d == qd * d + d) by (nonlinear_arith);
            assert((j + 2) * rr == (j + 1) * rr + rr) by (nonlinear_arith);
        }
        if s >= d - rr {
            s = s - (d - rr);
            qd = qd + 1;
        } else {
            s = s + rr;
        }
        j = j + 1;
    }
    (qd, s)
}

/// floor((r * 10^e) / d) for a remainder `r < d`, by decimal long division.
/// The quotient stays below 10^e, so it always fits.
pub fn mul_pow10_div(r: u128, e: u32, d: u128) -> (q: u128)
    requires
        r < d,
        e <= 15,
    ensures
        q as int == r as int * pow10(e as nat) / d as int,
        q as int * d as int <= r as int * pow10(e as nat),
{
    let mut q: u128 = 0;
    let mut rr: u128 = r;
    let mut k: u32 = 0;
    while k < e
        invariant
            r < d,
            rr < d,
            k <= e,
            e <= 15,
            q * d + rr == r * pow10(k as nat),
            q < pow10(k as nat),
        decreases e - k,
    {
        let dig = mul10_div_rem(rr, d);
        proof {
            lemma_pow10_mono((k + 1) as nat, 15);
            lemma_pow10_values();
            assert((10 * q + dig.0) * d == 10 * (q * d) + dig.0 * d) by (nonlinear_arith);
            assert(10 * (r as int * pow10(k as nat)) == r as int * (10 * pow10(k as nat)))
                by (nonlinear_arith);
        }
        q = q * 10 + dig.0;
        rr = dig.1;
        k = k + 1;
    }
    proof {
        lemma_fundamental_div_mod_converse_div(
            r as int * pow10(e as nat),
            d as int,
            q as int,
            rr as int,
        );
    }
    q
}

} // verus!
