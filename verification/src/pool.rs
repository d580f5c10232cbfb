//! The per-pool ledger: one record per trading pair, mutated by exactly
//! one operation at a time.
//!
//! Every mutation keeps the financial invariants: liquidity never goes
//! negative, a gross fee amount splits exactly into protocol, referral and
//! liquidity-provider shares, fee-growth accumulators only ever grow, and
//! the seconds-per-liquidity accumulator advances only with time.

use vstd::prelude::*;

verus! {

use crate::decimal::{
    FeeGrowth, FixedPoint, Liquidity, Price, TokenAmount, FEE_GROWTH_ONE, FIXED_POINT_ONE,
    LIQUIDITY_ONE,
};
use crate::math::{ceil_div, lemma_ceil_div, lemma_div_sum_le};
use vstd::arithmetic::div_mod::{
    lemma_div_is_ordered, lemma_div_multiples_vanish_fancy, lemma_div_pos_is_pos,
};
use vstd::arithmetic::mul::{
    lemma_mul_inequality, lemma_mul_is_distributive_add, lemma_mul_nonnegative,
    lemma_mul_upper_bound,
};

/// An opaque 32-byte account address.
#[derive(Clone, Copy, Debug, PartialEq, Eq)]
pub struct Address(pub [u8; 32]);

impl Address {
    /// All 32 bytes zero: the address of a freshly registered pool.
    pub open spec fn is_zero(self) -> bool {
        forall|i: int| 0 <= i < 32 ==> self.0[i] == 0
    }
}

/// The one recoverable domain error: a liquidity decrease larger than the
/// pool's current liquidity.
#[derive(Clone, Copy, Debug, PartialEq, Eq, Structural)]
pub enum ErrorCode {
    InvalidPoolLiquidity,
}

/// Protocol share of a gross fee `amount` under rate `protocol_fee`:
/// `amount * protocol_fee`, rounded up so the protocol never
/// under-collects.
pub open spec fn spec_protocol_fee(amount: int, protocol_fee: int) -> int {
    ceil_div(amount * protocol_fee, FIXED_POINT_ONE as int)
}

/// Referral share: `amount * ref_percentage` rounded down, so referral
/// payouts never exceed the designated fraction.
pub open spec fn spec_referral_fee(amount: int, ref_percentage: int) -> int {
    if ref_percentage == 0 {
        0
    } else {
        amount * ref_percentage / (FIXED_POINT_ONE as int)
    }
}

/// Liquidity providers' share: exactly what the other two shares leave of
/// the amount, so the three parts always sum back to it.
pub open spec fn spec_pool_fee(amount: int, protocol_fee: int, ref_percentage: int) -> int {
    amount - spec_protocol_fee(amount, protocol_fee) - spec_referral_fee(amount, ref_percentage)
}

/// Fee growth credited per unit of liquidity for a pool-fee share, at
/// `FeeGrowth` scale, truncating.
pub open spec fn spec_fee_growth_delta(pool_fee: int, liquidity: int) -> int {
    pool_fee * (FEE_GROWTH_ONE as int) * (LIQUIDITY_ONE as int) / liquidity
}

/// Increment of the seconds-per-liquidity accumulator for `elapsed`
/// seconds spread over `liquidity`, at `FixedPoint` scale, truncating.
pub open spec fn spec_seconds_per_liquidity_delta(elapsed: int, liquidity: int) -> int {
    elapsed * (FIXED_POINT_ONE as int) * (LIQUIDITY_ONE as int) / liquidity
}

/// Fee conservation: however the rounding falls, the protocol, referral
/// and liquidity-provider shares of a gross fee amount sum back to that
/// amount exactly, and no share is negative.
pub proof fn lemma_fee_split_conservation(amount: int, protocol_fee: int, ref_percentage: int)
    requires
        0 <= amount,
        0 <= protocol_fee,
        0 <= ref_percentage,
        spec_protocol_fee(amount, protocol_fee) + spec_referral_fee(amount, ref_percentage)
            <= amount,
    ensures
        spec_protocol_fee(amount, protocol_fee) + spec_referral_fee(amount, ref_percentage)
            + spec_pool_fee(amount, protocol_fee, ref_percentage) == amount,
        0 <= spec_protocol_fee(amount, protocol_fee),
        0 <= spec_referral_fee(amount, ref_percentage),
        0 <= spec_pool_fee(amount, protocol_fee, ref_percentage),
{
    lemma_mul_nonnegative(amount, protocol_fee);
    lemma_ceil_div(amount * protocol_fee, FIXED_POINT_ONE as int);
    if ref_percentage != 0 {
        lemma_mul_nonnegative(amount, ref_percentage);
        lemma_div_pos_is_pos(amount * ref_percentage, FIXED_POINT_ONE as int);
    }
}

/// When the protocol and referral fractions sum to at most one, the
/// rounded protocol and referral shares never exceed the gross amount:
/// the three-way split of `add_fee` is defined for every amount.
pub proof fn lemma_fee_fractions_fit(amount: int, protocol_fee: int, ref_percentage: int)
    requires
        0 <= amount,
        0 <= protocol_fee,
        0 <= ref_percentage,
        protocol_fee + ref_percentage <= FIXED_POINT_ONE as int,
    ensures
        spec_protocol_fee(amount, protocol_fee) + spec_referral_fee(amount, ref_percentage)
            <= amount,
{
    let d = FIXED_POINT_ONE as int;
    lemma_mul_nonnegative(amount, protocol_fee);
    lemma_mul_nonnegative(amount, ref_percentage);
    lemma_mul_is_distributive_add(amount, protocol_fee, ref_percentage);
    lemma_mul_inequality(protocol_fee + ref_percentage, d, amount);
    lemma_div_multiples_vanish_fancy(amount, d - 1, d);
    if ref_percentage == 0 {
        lemma_div_is_ordered(amount * protocol_fee + d - 1, d * amount + (d - 1), d);
    } else {
        lemma_div_sum_le(amount * protocol_fee + d - 1, amount * ref_percentage, d);
        lemma_div_is_ordered(
            amount * protocol_fee + d - 1 + amount * ref_percentage,
            d * amount + (d - 1),
            d,
        );
    }
}

/// The persisted record of one trading pair.
#[derive(Clone, Debug, PartialEq)]
pub struct Pool {
    pub token_x: Address,
    pub token_y: Address,
    pub token_x_reserve: Address,
    pub token_y_reserve: Address,
    pub position_iterator: u128,
    pub tick_spacing: u16,
    pub fee: FixedPoint,
    pub protocol_fee: FixedPoint,
    pub liquidity: Liquidity,
    pub sqrt_price: Price,
    /// Nearest tick at or below the current price.
    pub current_tick_index: i32,
    pub tickmap: Address,
    pub fee_growth_global_x: FeeGrowth,
    pub fee_growth_global_y: FeeGrowth,
    pub fee_protocol_token_x: u64,
    pub fee_protocol_token_y: u64,
    pub seconds_per_liquidity_global: FixedPoint,
    pub start_timestamp: u64,
    pub last_timestamp: u64,
    pub fee_receiver: Address,
    pub oracle_address: Address,
    pub oracle_initialized: bool,
    /// Structural padding/alignment byte of the persisted layout.
    pub bump: u8,
}

impl Pool {
    /// Both fee rates are fixed-point fractions in [0, 1).
    pub open spec fn wf(self) -> bool {
        self.fee.0 < FIXED_POINT_ONE && self.protocol_fee.0 < FIXED_POINT_ONE
    }

    /// The liquidity providers' share of `amount` under this pool's
    /// protocol fee rate.
    pub open spec fn pool_fee_share(self, amount: TokenAmount, ref_percentage: FixedPoint) -> int {
        spec_pool_fee(amount.0 as int, self.protocol_fee.0 as int, ref_percentage.0 as int)
    }

    /// `add_fee` records fee growth and protocol fees only when both the
    /// pool share and the pool's liquidity are non-zero.
    pub open spec fn add_fee_updates(self, amount: TokenAmount, ref_percentage: FixedPoint) -> bool {
        self.pool_fee_share(amount, ref_percentage) != 0 && self.liquidity.0 != 0
    }

    /// The fee-growth increment that `add_fee` applies when it updates.
    pub open spec fn add_fee_growth_delta(
        self,
        amount: TokenAmount,
        ref_percentage: FixedPoint,
    ) -> int {
        spec_fee_growth_delta(self.pool_fee_share(amount, ref_percentage), self.liquidity.0 as int)
    }

    /// Splits a gross fee `amount`, already deducted from a trade's input,
    /// into the protocol share (rounded up), the referral share (rounded
    /// down, zero for a zero referral fraction) and the liquidity
    /// providers' remainder; credits the pool share to the fee-growth
    /// accumulator of the chosen token and the protocol share to its
    /// accrual counter, and returns the referral share for the caller to
    /// transfer. When the pool share or the pool's liquidity is zero,
    /// nothing is recorded and only the referral share is returned; on
    /// that path even the protocol share is dropped for the call — it is
    /// not credited anywhere, which the contract below states exactly.
    pub fn add_fee(
        &mut self,
        amount: TokenAmount,
        ref_percentage: FixedPoint,
        in_x: bool,
    ) -> (ref_fee: TokenAmount)
        requires
            old(self).wf(),
            ref_percentage.0 <= FIXED_POINT_ONE,
            spec_protocol_fee(amount.0 as int, old(self).protocol_fee.0 as int)
                + spec_referral_fee(amount.0 as int, ref_percentage.0 as int) <= amount.0 as int,
            old(self).add_fee_updates(amount, ref_percentage) && in_x
                ==> old(self).fee_growth_global_x.0
                    + old(self).add_fee_growth_delta(amount, ref_percentage) <= u128::MAX
                    && old(self).fee_protocol_token_x
                    + spec_protocol_fee(amount.0 as int, old(self).protocol_fee.0 as int)
                    <= u64::MAX,
            old(self).add_fee_updates(amount, ref_percentage) && !in_x
                ==> old(self).fee_growth_global_y.0
                    + old(self).add_fee_growth_delta(amount, ref_percentage) <= u128::MAX
                    && old(self).fee_protocol_token_y
                    + spec_protocol_fee(amount.0 as int, old(self).protocol_fee.0 as int)
                    <= u64::MAX,
        ensures
            ref_fee.0 as int == spec_referral_fee(amount.0 as int, ref_percentage.0 as int),
            !old(self).add_fee_updates(amount, ref_percentage) ==> *final(self) == *old(self),
            old(self).add_fee_updates(amount, ref_percentage) && in_x ==> (*final(self) == (Pool {
                fee_growth_global_x: FeeGrowth((old(self).fee_growth_global_x.0
                    + old(self).add_fee_growth_delta(amount, ref_percentage)) as u128),
                fee_protocol_token_x: ((old(self).fee_protocol_token_x
                    + spec_protocol_fee(amount.0 as int, old(self).protocol_fee.0 as int)) as u64),
                ..*old(self)
            })),
            old(self).add_fee_updates(amount, ref_percentage) && !in_x ==> (*final(self) == (Pool {
                fee_growth_global_y: FeeGrowth((old(self).fee_growth_global_y.0
                    + old(self).add_fee_growth_delta(amount, ref_percentage)) as u128),
                fee_protocol_token_y: ((old(self).fee_protocol_token_y
                    + spec_protocol_fee(amount.0 as int, old(self).protocol_fee.0 as int)) as u64),
                ..*old(self)
            })),
            final(self).fee_growth_global_x.0 >= old(self).fee_growth_global_x.0,
            final(self).fee_growth_global_y.0 >= old(self).fee_growth_global_y.0,
            final(self).fee_protocol_token_x >= old(self).fee_protocol_token_x,
            final(self).fee_protocol_token_y >= old(self).fee_protocol_token_y,
            final(self).liquidity == old(self).liquidity,
            final(self).wf(),
    {
        proof {
            lemma_mul_nonnegative(amount.0 as int, self.protocol_fee.0 as int);
            lemma_mul_upper_bound(amount.0 as int, u64::MAX as int, self.protocol_fee.0 as int,
                FIXED_POINT_ONE as int);
            lemma_ceil_div(amount.0 as int * self.protocol_fee.0 as int, FIXED_POINT_ONE as int);
            lemma_mul_nonnegative(amount.0 as int, ref_percentage.0 as int);
            lemma_mul_upper_bound(amount.0 as int, u64::MAX as int, ref_percentage.0 as int,
                FIXED_POINT_ONE as int);
            lemma_div_pos_is_pos(amount.0 as int * ref_percentage.0 as int,
                FIXED_POINT_ONE as int);
        }
        let protocol_fee = TokenAmount::from_decimal_up(amount.big_mul(self.protocol_fee));
        let ref_fee = if ref_percentage.is_zero() {
            TokenAmount(0)
        } else {
            TokenAmount::from_decimal(amount.big_mul(ref_percentage))
        };
        let pool_fee = amount.sub(protocol_fee).sub(ref_fee);

        if pool_fee.is_zero() || self.liquidity.is_zero() {
            return ref_fee;
        }
        proof {
            lemma_mul_nonnegative(pool_fee.0 as int, FEE_GROWTH_ONE as int);
            lemma_mul_nonnegative(pool_fee.0 as int * FEE_GROWTH_ONE as int,
                LIQUIDITY_ONE as int);
            lemma_div_pos_is_pos(pool_fee.0 as int * FEE_GROWTH_ONE as int * LIQUIDITY_ONE as int,
                self.liquidity.0 as int);
        }
        let fee_growth = FeeGrowth::from_fee(self.liquidity, pool_fee);

        if in_x {
            self.fee_growth_global_x = self.fee_growth_global_x.unchecked_add(fee_growth);
            self.fee_protocol_token_x = self.fee_protocol_token_x + protocol_fee.0;
        } else {
            self.fee_growth_global_y = self.fee_growth_global_y.unchecked_add(fee_growth);
            self.fee_protocol_token_y = self.fee_protocol_token_y + protocol_fee.0;
        }
        ref_fee
    }

    /// Adjusts total pool liquidity by `liquidity_delta`, adding when
    /// `add` is true and subtracting otherwise. A decrease larger than
    /// the current liquidity is rejected and leaves the pool untouched,
    /// so liquidity can never go negative.
    pub fn update_liquidity_safely(&mut self, liquidity_delta: Liquidity, add: bool) -> (r: Result<
        (),
        ErrorCode,
    >)
        requires
            add ==> old(self).liquidity.0 + liquidity_delta.0 <= u128::MAX,
        ensures
            r is Err <==> !add && old(self).liquidity.0 < liquidity_delta.0,
            r is Err ==> *final(self) == *old(self) && r == Err::<(), ErrorCode>(
                ErrorCode::InvalidPoolLiquidity,
            ),
            add && r is Ok ==> (*final(self) == (Pool {
                liquidity: Liquidity((old(self).liquidity.0 + liquidity_delta.0) as u128),
                ..*old(self)
            })),
            !add && r is Ok ==> (*final(self) == (Pool {
                liquidity: Liquidity((old(self).liquidity.0 - liquidity_delta.0) as u128),
                ..*old(self)
            })),
    {
        if !add && self.liquidity.0 < liquidity_delta.0 {
            return Err(ErrorCode::InvalidPoolLiquidity);
        }
        self.liquidity = if add {
            self.liquidity.add(liquidity_delta)
        } else {
            self.liquidity.sub(liquidity_delta)
        };
        Ok(())
    }

    /// Accumulates `elapsed / liquidity` into the global
    /// seconds-per-liquidity accumulator and advances `last_timestamp` to
    /// the given timestamp. Time must not move backward, and the caller
    /// must gate on non-zero liquidity before invoking this.
    pub fn update_seconds_per_liquidity_global(&mut self, current_timestamp: u64)
        requires
            0 < old(self).liquidity.0,
            old(self).last_timestamp <= current_timestamp,
            old(self).seconds_per_liquidity_global.0 + spec_seconds_per_liquidity_delta(
                current_timestamp - old(self).last_timestamp,
                old(self).liquidity.0 as int,
            ) <= u128::MAX,
        ensures
            final(self).last_timestamp == current_timestamp,
            (*final(self) == (Pool {
                seconds_per_liquidity_global: FixedPoint((old(
                    self,
                ).seconds_per_liquidity_global.0 + spec_seconds_per_liquidity_delta(
                    current_timestamp - old(self).last_timestamp,
                    old(self).liquidity.0 as int,
                )) as u128),
                last_timestamp: current_timestamp,
                ..*old(self)
            })),
            final(self).seconds_per_liquidity_global.0
                >= old(self).seconds_per_liquidity_global.0,
    {
        let elapsed: u64 = current_timestamp - self.last_timestamp;
        proof {
            lemma_mul_nonnegative(elapsed as int, FIXED_POINT_ONE as int);
            lemma_mul_upper_bound(elapsed as int, u64::MAX as int, FIXED_POINT_ONE as int,
                FIXED_POINT_ONE as int);
            lemma_mul_upper_bound(elapsed as int * FIXED_POINT_ONE as int,
                u64::MAX as int * FIXED_POINT_ONE as int, LIQUIDITY_ONE as int,
                LIQUIDITY_ONE as int);
            lemma_mul_nonnegative(elapsed as int * FIXED_POINT_ONE as int, LIQUIDITY_ONE as int);
            lemma_div_pos_is_pos(elapsed as int * FIXED_POINT_ONE as int * LIQUIDITY_ONE as int,
                self.liquidity.0 as int);
        }
        let delta = FixedPoint::from_integer(elapsed).big_div(self.liquidity);
        self.seconds_per_liquidity_global = self.seconds_per_liquidity_global.unchecked_add(delta);
        self.last_timestamp = current_timestamp;
    }

    /// Records the oracle record's address and marks the pool as
    /// oracle-initialized. Pure field assignment; the address is not
    /// validated here.
    pub fn set_oracle(&mut self, address: Address)
        ensures
            (*final(self) == (Pool {
                oracle_address: address,
                oracle_initialized: true,
                ..*old(self)
            })),
    {
        self.oracle_address = address;
        self.oracle_initialized = true;
    }
}

impl Default for Pool {
    /// A freshly registered pool: every counter, accumulator and flag at
    /// zero, addresses zeroed.
    fn default() -> (r: Pool)
        ensures
            r.position_iterator == 0,
            r.tick_spacing == 0,
            r.fee.0 == 0,
            r.protocol_fee.0 == 0,
            r.liquidity.0 == 0,
            r.sqrt_price.0 == 0,
            r.current_tick_index == 0,
            r.fee_growth_global_x.0 == 0,
            r.fee_growth_global_y.0 == 0,
            r.fee_protocol_token_x == 0,
            r.fee_protocol_token_y == 0,
            r.seconds_per_liquidity_global.0 == 0,
            r.start_timestamp == 0,
            r.last_timestamp == 0,
            r.oracle_initialized == false,
            r.bump == 0,
            r.token_x.is_zero(),
            r.token_y.is_zero(),
            r.token_x_reserve.is_zero(),
            r.token_y_reserve.is_zero(),
            r.tickmap.is_zero(),
            r.fee_receiver.is_zero(),
            r.oracle_address.is_zero(),
            r.wf(),
    {
        Pool {
            token_x: Address([0u8; 32]),
            token_y: Address([0u8; 32]),
            token_x_reserve: Address([0u8; 32]),
            token_y_reserve: Address([0u8; 32]),
            position_iterator: 0,
            tick_spacing: 0,
            fee: FixedPoint(0),
            protocol_fee: FixedPoint(0),
            liquidity: Liquidity(0),
            sqrt_price: Price(0),
            current_tick_index: 0,
            tickmap: Address([0u8; 32]),
            fee_growth_global_x: FeeGrowth(0),
            fee_growth_global_y: FeeGrowth(0),
            fee_protocol_token_x: 0,
            fee_protocol_token_y: 0,
            seconds_per_liquidity_global: FixedPoint(0),
            start_timestamp: 0,
            last_timestamp: 0,
            fee_receiver: Address([0u8; 32]),
            oracle_address: Address([0u8; 32]),
            oracle_initialized: false,
            bump: 0,
        }
    }
}

} // verus!
