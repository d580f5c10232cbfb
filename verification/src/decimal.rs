//! Unit-distinct fixed-point decimal types.
//!
//! Every quantity of the ledger is a scaled integer: the wrapped word
//! holds `value * 10^SCALE`. Each unit gets its own nominal type so that a
//! liquidity value can never be used where a price or a fee-growth value
//! is expected. Narrowing conversions round explicitly: truncation towards
//! zero for amounts credited to liquidity providers or referrers, rounding
//! up for amounts owed to the protocol.

use vstd::prelude::*;

verus! {

use crate::math::{
    ceil_div, div_ceil_u128, lemma_ceil_div, lemma_pow10_values, mul_pow10_div, pow10, pow10_u128,
};
use vstd::arithmetic::div_mod::{
    lemma_fundamental_div_mod, lemma_fundamental_div_mod_converse_div, lemma_mod_bound,
};
use vstd::arithmetic::mul::lemma_mul_upper_bound;

/// Scale of `FixedPoint`: fractions such as fee rates, and the
/// seconds-per-liquidity accumulator.
pub const FIXED_POINT_SCALE: u8 = 12;

/// `10^FIXED_POINT_SCALE`, the representation of `1` as a `FixedPoint`.
pub const FIXED_POINT_ONE: u128 = 1_000_000_000_000;

/// Scale of `Liquidity`.
pub const LIQUIDITY_SCALE: u8 = 6;

/// `10^LIQUIDITY_SCALE`, the representation of `1` as a `Liquidity`.
pub const LIQUIDITY_ONE: u128 = 1_000_000;

/// Scale of `FeeGrowth`: trading fee earned per unit of liquidity.
pub const FEE_GROWTH_SCALE: u8 = 24;

/// `10^FEE_GROWTH_SCALE`, the representation of `1` as a `FeeGrowth`.
pub const FEE_GROWTH_ONE: u128 = 1_000_000_000_000_000_000_000_000;

/// Scale of `Price`: the square root of a pool's token-exchange rate.
pub const PRICE_SCALE: u8 = 24;

/// `10^PRICE_SCALE`, the representation of `1` as a `Price`.
pub const PRICE_ONE: u128 = 1_000_000_000_000_000_000_000_000;

/// `10^15`, half of the combined scale `FEE_GROWTH_SCALE +
/// LIQUIDITY_SCALE`: `from_fee` scales by it twice, so that neither step
/// overflows a machine word.
const POW10_15: u128 = 1_000_000_000_000_000;

/// A raw integer number of tokens (scale 0).
#[derive(Clone, Copy, Debug, PartialEq, Eq, Structural)]
pub struct TokenAmount(pub u64);

/// Double-width intermediate of a token amount multiplied by a
/// `FixedPoint` fraction: a token amount at `FixedPoint` scale.
#[derive(Clone, Copy, Debug, PartialEq, Eq, Structural)]
pub struct BigTokenAmount(pub u128);

/// A fixed-point fraction or accumulator at scale 12.
#[derive(Clone, Copy, Debug, PartialEq, Eq, Structural)]
pub struct FixedPoint(pub u128);

/// The pool's active market-making depth, at scale 6.
#[derive(Clone, Copy, Debug, PartialEq, Eq, Structural)]
pub struct Liquidity(pub u128);

/// A square-root price, at scale 24.
#[derive(Clone, Copy, Debug, PartialEq, Eq, Structural)]
pub struct Price(pub u128);

/// Cumulative trading fee per unit of liquidity, at scale 24.
#[derive(Clone, Copy, Debug, PartialEq, Eq, Structural)]
pub struct FeeGrowth(pub u128);

impl TokenAmount {
    /// The exact representation of the integer `v`.
    pub fn from_integer(v: u64) -> (r: TokenAmount)
        ensures
            r.0 == v,
    {
        TokenAmount(v)
    }

    /// True exactly when the amount is zero.
    pub fn is_zero(self) -> (r: bool)
        ensures
            r <==> self.0 == 0,
    {
        self.0 == 0
    }

    /// Double-width product with a `FixedPoint` fraction; exact, no
    /// rounding happens until the product is narrowed back.
    pub fn big_mul(self, factor: FixedPoint) -> (r: BigTokenAmount)
        requires
            self.0 * factor.0 <= u128::MAX,
        ensures
            r.0 == self.0 * factor.0,
    {
        BigTokenAmount((self.0 as u128) * factor.0)
    }

    /// Narrows a double-width product back to whole tokens, truncating
    /// towards zero.
    pub fn from_decimal(d: BigTokenAmount) -> (r: TokenAmount)
        requires
            d.0 / FIXED_POINT_ONE <= u64::MAX,
        ensures
            r.0 == d.0 / FIXED_POINT_ONE,
    {
        TokenAmount((d.0 / FIXED_POINT_ONE) as u64)
    }

    /// Narrows a double-width product back to whole tokens, rounding up to
    /// the smallest representable unit.
    pub fn from_decimal_up(d: BigTokenAmount) -> (r: TokenAmount)
        requires
            ceil_div(d.0 as int, FIXED_POINT_ONE as int) <= u64::MAX,
        ensures
            r.0 == ceil_div(d.0 as int, FIXED_POINT_ONE as int),
    {
        proof {
            lemma_ceil_div(d.0 as int, FIXED_POINT_ONE as int);
        }
        TokenAmount(div_ceil_u128(d.0, FIXED_POINT_ONE) as u64)
    }

    /// Difference of two amounts; the caller owes that no underflow can
    /// happen.
    pub fn sub(self, other: TokenAmount) -> (r: TokenAmount)
        requires
            other.0 <= self.0,
        ensures
            r.0 == self.0 - other.0,
    {
        TokenAmount(self.0 - other.0)
    }
}

impl FixedPoint {
    /// A value directly from its raw scaled representation.
    pub fn new(v: u128) -> (r: FixedPoint)
        ensures
            r.0 == v,
    {
        FixedPoint(v)
    }

    /// The exact representation of the integer `v`.
    pub fn from_integer(v: u64) -> (r: FixedPoint)
        ensures
            r.0 == v * FIXED_POINT_ONE,
    {
        proof {
            lemma_mul_upper_bound(v as int, u64::MAX as int, FIXED_POINT_ONE as int,
                FIXED_POINT_ONE as int);
        }
        FixedPoint((v as u128) * FIXED_POINT_ONE)
    }

    /// The value `v * 10^(-scale)`, exactly.
    pub fn from_scale(v: u128, scale: u8) -> (r: FixedPoint)
        requires
            scale <= FIXED_POINT_SCALE,
            v * pow10((FIXED_POINT_SCALE - scale) as nat) <= u128::MAX,
        ensures
            r.0 == v * pow10((FIXED_POINT_SCALE - scale) as nat),
    {
        let m = pow10_u128((FIXED_POINT_SCALE - scale) as u32);
        FixedPoint(v * m)
    }

    /// True exactly when the value is zero.
    pub fn is_zero(self) -> (r: bool)
        ensures
            r <==> self.0 == 0,
    {
        self.0 == 0
    }

    /// Sum of two values; overflow is the caller's fault and is excluded
    /// up front.
    pub fn unchecked_add(self, other: FixedPoint) -> (r: FixedPoint)
        requires
            self.0 + other.0 <= u128::MAX,
        ensures
            r.0 == self.0 + other.0,
    {
        FixedPoint(self.0 + other.0)
    }

    /// Division by a liquidity value, truncating towards zero; the result
    /// keeps the `FixedPoint` scale.
    pub fn big_div(self, other: Liquidity) -> (r: FixedPoint)
        requires
            0 < other.0,
            self.0 * LIQUIDITY_ONE <= u128::MAX,
        ensures
            r.0 == self.0 * LIQUIDITY_ONE / (other.0 as int),
    {
        FixedPoint(self.0 * LIQUIDITY_ONE / other.0)
    }
}

impl Liquidity {
    /// A value directly from its raw scaled representation.
    pub fn new(v: u128) -> (r: Liquidity)
        ensures
            r.0 == v,
    {
        Liquidity(v)
    }

    /// The exact representation of the integer `v`.
    pub fn from_integer(v: u64) -> (r: Liquidity)
        ensures
            r.0 == v * LIQUIDITY_ONE,
    {
        proof {
            lemma_mul_upper_bound(v as int, u64::MAX as int, LIQUIDITY_ONE as int,
                LIQUIDITY_ONE as int);
        }
        Liquidity((v as u128) * LIQUIDITY_ONE)
    }

    /// True exactly when the liquidity is zero.
    pub fn is_zero(self) -> (r: bool)
        ensures
            r <==> self.0 == 0,
    {
        self.0 == 0
    }

    /// Sum of two liquidity values; overflow is excluded up front.
    pub fn add(self, other: Liquidity) -> (r: Liquidity)
        requires
            self.0 + other.0 <= u128::MAX,
        ensures
            r.0 == self.0 + other.0,
    {
        Liquidity(self.0 + other.0)
    }

    /// Difference of two liquidity values; the caller owes that no
    /// underflow can happen.
    pub fn sub(self, other: Liquidity) -> (r: Liquidity)
        requires
            other.0 <= self.0,
        ensures
            r.0 == self.0 - other.0,
    {
        Liquidity(self.0 - other.0)
    }
}

impl Price {
    /// A value directly from its raw scaled representation.
    pub fn new(v: u128) -> (r: Price)
        ensures
            r.0 == v,
    {
        Price(v)
    }

    /// The exact representation of the integer `v`.
    pub fn from_integer(v: u64) -> (r: Price)
        requires
            v * PRICE_ONE <= u128::MAX,
        ensures
            r.0 == v * PRICE_ONE,
    {
        Price((v as u128) * PRICE_ONE)
    }

    /// True exactly when the price is zero.
    pub fn is_zero(self) -> (r: bool)
        ensures
            r <==> self.0 == 0,
    {
        self.0 == 0
    }
}

impl FeeGrowth {
    /// A value directly from its raw scaled representation.
    pub fn new(v: u128) -> (r: FeeGrowth)
        ensures
            r.0 == v,
    {
        FeeGrowth(v)
    }

    /// The exact representation of the integer `v`.
    pub fn from_integer(v: u64) -> (r: FeeGrowth)
        requires
            v * FEE_GROWTH_ONE <= u128::MAX,
        ensures
            r.0 == v * FEE_GROWTH_ONE,
    {
        FeeGrowth((v as u128) * FEE_GROWTH_ONE)
    }

    /// The value `v * 10^(-scale)`, exactly.
    pub fn from_scale(v: u128, scale: u8) -> (r: FeeGrowth)
        requires
            scale <= FEE_GROWTH_SCALE,
            v * pow10((FEE_GROWTH_SCALE - scale) as nat) <= u128::MAX,
        ensures
            r.0 == v * pow10((FEE_GROWTH_SCALE - scale) as nat),
    {
        let m = pow10_u128((FEE_GROWTH_SCALE - scale) as u32);
        FeeGrowth(v * m)
    }

    /// True exactly when the value is zero.
    pub fn is_zero(self) -> (r: bool)
        ensures
            r <==> self.0 == 0,
    {
        self.0 == 0
    }

    /// Sum of two values; overflow is excluded up front.
    pub fn unchecked_add(self, other: FeeGrowth) -> (r: FeeGrowth)
        requires
            self.0 + other.0 <= u128::MAX,
        ensures
            r.0 == self.0 + other.0,
    {
        FeeGrowth(self.0 + other.0)
    }

    /// The fee earned per unit of liquidity when `fee` whole tokens are
    /// spread over `liquidity`, truncating towards zero. The intermediate
    /// product is wider than a machine word, so it is folded through exact
    /// long division.
    pub fn from_fee(liquidity: Liquidity, fee: TokenAmount) -> (r: FeeGrowth)
        requires
            0 < liquidity.0,
            fee.0 * FEE_GROWTH_ONE * LIQUIDITY_ONE / (liquidity.0 as int) <= u128::MAX,
        ensures
            r.0 == fee.0 * FEE_GROWTH_ONE * LIQUIDITY_ONE / (liquidity.0 as int),
    {
        proof {
            lemma_mul_upper_bound(fee.0 as int, u64::MAX as int, POW10_15 as int,
                POW10_15 as int);
        }
        let a: u128 = (fee.0 as u128) * POW10_15;
        let q1: u128 = a / liquidity.0;
        let r1: u128 = a % liquidity.0;
        proof {
            lemma_mod_bound(a as int, liquidity.0 as int);
        }
        let q2: u128 = mul_pow10_div(r1, 15, liquidity.0);
        proof {
            lemma_pow10_values();
            let f = fee.0 as int;
            let d = liquidity.0 as int;
            let p = POW10_15 as int;
            lemma_fundamental_div_mod(a as int, d);
            lemma_fundamental_div_mod(r1 as int * p, d);
            lemma_mod_bound(r1 as int * p, d);
            assert(f * (FEE_GROWTH_ONE as int) * (LIQUIDITY_ONE as int) == (f * p) * p)
                by (nonlinear_arith)
                requires
                    (FEE_GROWTH_ONE as int) == 1_000_000_000_000_000_000_000_000int,
                    (LIQUIDITY_ONE as int) == 1_000_000int,
                    p == 1_000_000_000_000_000int,
            ;
            assert((f * p) * p == (q1 as int * p + q2 as int) * d + (r1 as int * p) % d)
                by (nonlinear_arith)
                requires
                    f * p == d * (q1 as int) + r1 as int,
                    r1 as int * p == d * (q2 as int) + (r1 as int * p) % d,
            ;
            lemma_fundamental_div_mod_converse_div(
                (f * p) * p,
                d,
                q1 as int * p + q2 as int,
                (r1 as int * p) % d,
            );
        }
        FeeGrowth(q1 * POW10_15 + q2)
    }
}

} // verus!
