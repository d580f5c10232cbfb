use invariant_pool::decimal::{FeeGrowth, FixedPoint, Liquidity, TokenAmount, FEE_GROWTH_ONE};
use invariant_pool::pool::{Address, ErrorCode, Pool};

#[test]
fn test_update_liquidity_safely_pool() {
    // Invalid pool liquidity
    {
        let mut pool = Pool {
            liquidity: Liquidity::new(0),
            ..Default::default()
        };
        let liquidity_delta = Liquidity::from_integer(1);
        let add = false;

        let result = pool.update_liquidity_safely(liquidity_delta, add);

        assert!(result.is_err());
    }
    // adding liquidity
    {
        let mut pool = Pool {
            liquidity: Liquidity::from_integer(1),
            ..Default::default()
        };
        let liquidity_delta = Liquidity::from_integer(2);
        let add = true;

        pool.update_liquidity_safely(liquidity_delta, add).unwrap();

        assert_eq!(pool.liquidity, Liquidity::from_integer(3));
    }
    // subtracting liquidity
    {
        let mut pool = Pool {
            liquidity: Liquidity::from_integer(3),
            ..Default::default()
        };
        let liquidity_delta = Liquidity::from_integer(2);
        let add = false;

        pool.update_liquidity_safely(liquidity_delta, add).unwrap();

        assert_eq!(pool.liquidity, Liquidity::from_integer(1));
    }
}

#[test]
fn test_add_fee() {
    let pool = Pool {
        protocol_fee: FixedPoint::from_scale(2, 1),
        liquidity: Liquidity::from_integer(10),
        ..Default::default()
    };
    // without referral
    {
        let mut pool = pool.clone();
        let amount = TokenAmount::from_integer(6);
        let ref_fee = pool.add_fee(amount, FixedPoint::from_integer(0), true);
        assert_eq!(pool.fee_growth_global_x, FeeGrowth::from_scale(4, 1));
        assert_eq!(pool.fee_growth_global_y, FeeGrowth::from_integer(0));
        assert_eq!(pool.fee_protocol_token_x, 2);
        assert_eq!(pool.fee_protocol_token_y, 0);
        assert!(ref_fee.is_zero())
    }
    // with referral
    {
        let mut pool = pool.clone();
        let amount = TokenAmount::from_integer(200);
        let ref_fee = pool.add_fee(amount, FixedPoint::from_scale(1, 2), false);

        assert_eq!(pool.fee_growth_global_x, FeeGrowth::from_integer(0));
        assert_eq!(pool.fee_growth_global_y, FeeGrowth::from_scale(158, 1));
        assert_eq!(pool.fee_protocol_token_x, 0);
        assert_eq!(pool.fee_protocol_token_y, 40);
        assert_eq!(ref_fee, TokenAmount(2));
    }
}

#[test]
fn add_fee_with_zero_liquidity_still_pays_referral() {
    let mut pool = Pool {
        protocol_fee: FixedPoint::from_scale(2, 1),
        liquidity: Liquidity::new(0),
        ..Default::default()
    };
    let ref_fee = pool.add_fee(TokenAmount(6), FixedPoint::from_scale(5, 1), true);

    assert_eq!(ref_fee, TokenAmount(3));
    // The skipped path records nothing at all.
    assert_eq!(pool.fee_growth_global_x, FeeGrowth::new(0));
    assert_eq!(pool.fee_growth_global_y, FeeGrowth::new(0));
    assert_eq!(pool.fee_protocol_token_x, 0);
    assert_eq!(pool.fee_protocol_token_y, 0);
}

#[test]
fn add_fee_with_zero_pool_share_records_nothing() {
    // The protocol share rounds up to the whole amount, so the pool share
    // is zero and even the protocol fee is left unrecorded.
    let mut pool = Pool {
        protocol_fee: FixedPoint::from_scale(5, 1),
        liquidity: Liquidity::from_integer(10),
        ..Default::default()
    };
    let ref_fee = pool.add_fee(TokenAmount(1), FixedPoint::from_integer(0), true);

    assert_eq!(ref_fee, TokenAmount(0));
    assert_eq!(pool.fee_growth_global_x, FeeGrowth::new(0));
    assert_eq!(pool.fee_protocol_token_x, 0);
}

#[test]
fn add_fee_accumulates_over_repeated_calls() {
    let mut pool = Pool {
        protocol_fee: FixedPoint::from_scale(2, 1),
        liquidity: Liquidity::from_integer(10),
        ..Default::default()
    };
    let mut previous_x = pool.fee_growth_global_x.0;
    for _ in 0..4 {
        pool.add_fee(TokenAmount(6), FixedPoint::from_integer(0), true);
        assert!(pool.fee_growth_global_x.0 >= previous_x);
        previous_x = pool.fee_growth_global_x.0;
    }
    assert_eq!(pool.fee_growth_global_x, FeeGrowth::from_scale(16, 1));
    assert_eq!(pool.fee_protocol_token_x, 8);
}

#[test]
fn fee_split_conserves_amount() {
    // protocol 0.3 of 7 rounds up to 3, referral 0.25 of 7 rounds down
    // to 1, and the liquidity providers absorb the remaining 3: the
    // three shares sum back to the gross amount exactly.
    let mut pool = Pool {
        protocol_fee: FixedPoint::from_scale(3, 1),
        liquidity: Liquidity::from_integer(1),
        ..Default::default()
    };
    let ref_fee = pool.add_fee(TokenAmount(7), FixedPoint::from_scale(25, 2), true);

    let protocol = pool.fee_protocol_token_x;
    // With liquidity exactly 1, the recorded fee growth is the pool share.
    let pool_share = pool.fee_growth_global_x.0 / FEE_GROWTH_ONE;
    assert_eq!(protocol, 3);
    assert_eq!(ref_fee, TokenAmount(1));
    assert_eq!(pool_share, 3);
    assert_eq!(protocol + ref_fee.0 + pool_share as u64, 7);
}

#[test]
fn add_fee_handles_the_largest_amount() {
    let mut pool = Pool {
        protocol_fee: FixedPoint::from_scale(2, 1),
        liquidity: Liquidity::from_integer(1_000_000_000_000),
        ..Default::default()
    };
    let ref_fee = pool.add_fee(TokenAmount(u64::MAX), FixedPoint::from_integer(0), true);

    assert!(ref_fee.is_zero());
    // u64::MAX is divisible by 5, so the protocol share is exact.
    assert_eq!(pool.fee_protocol_token_x, u64::MAX / 5);
    // The remaining four fifths spread over 10^12 units of liquidity.
    assert_eq!(
        pool.fee_growth_global_x.0,
        (u64::MAX - u64::MAX / 5) as u128 * 1_000_000_000_000
    );
}

#[test]
fn update_liquidity_safely_reports_invalid_pool_liquidity() {
    let mut pool = Pool {
        liquidity: Liquidity::from_integer(1),
        ..Default::default()
    };
    let result = pool.update_liquidity_safely(Liquidity::from_integer(2), false);

    assert_eq!(result, Err(ErrorCode::InvalidPoolLiquidity));
    assert_eq!(pool.liquidity, Liquidity::from_integer(1));
}

#[test]
fn update_seconds_per_liquidity_global_advances_timestamp() {
    let mut pool = Pool {
        liquidity: Liquidity::from_integer(2),
        last_timestamp: 100,
        ..Default::default()
    };
    pool.update_seconds_per_liquidity_global(170);

    assert_eq!(pool.last_timestamp, 170);
    // 70 seconds over liquidity 2: the accumulator gains exactly 35.
    assert_eq!(pool.seconds_per_liquidity_global, FixedPoint::from_integer(35));

    // No time elapsed: only the timestamp moves (to itself).
    pool.update_seconds_per_liquidity_global(170);
    assert_eq!(pool.last_timestamp, 170);
    assert_eq!(pool.seconds_per_liquidity_global, FixedPoint::from_integer(35));
}

#[test]
fn set_oracle_records_address_and_flag() {
    let mut pool = Pool::default();
    assert!(!pool.oracle_initialized);

    let address = Address([7u8; 32]);
    pool.set_oracle(address);

    assert_eq!(pool.oracle_address, address);
    assert!(pool.oracle_initialized);
    assert_eq!(pool.liquidity, Liquidity::new(0));
}
