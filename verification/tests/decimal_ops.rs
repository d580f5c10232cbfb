use invariant_pool::decimal::{
    BigTokenAmount, FeeGrowth, FixedPoint, Liquidity, Price, TokenAmount, FEE_GROWTH_ONE,
    FIXED_POINT_ONE, LIQUIDITY_ONE,
};

#[test]
fn construction_is_exact() {
    assert_eq!(TokenAmount::from_integer(6), TokenAmount(6));
    assert_eq!(FixedPoint::from_integer(3).0, 3 * FIXED_POINT_ONE);
    assert_eq!(FixedPoint::from_scale(2, 1).0, 200_000_000_000);
    assert_eq!(Liquidity::from_integer(10).0, 10 * LIQUIDITY_ONE);
    assert_eq!(FeeGrowth::from_integer(1).0, FEE_GROWTH_ONE);
    assert_eq!(FeeGrowth::from_scale(158, 1).0, 15_800_000_000_000_000_000_000_000);
    assert_eq!(Price::from_integer(0).0, 0);
    assert!(Price::new(0).is_zero());
    assert!(FixedPoint::new(0).is_zero());
    assert!(!Liquidity::new(1).is_zero());
    assert!(FeeGrowth::new(0).is_zero());
    assert!(TokenAmount::from_integer(0).is_zero());
}

#[test]
fn big_mul_keeps_the_full_product() {
    let product = TokenAmount(6).big_mul(FixedPoint::from_scale(2, 1));
    assert_eq!(product, BigTokenAmount(1_200_000_000_000));
}

#[test]
fn narrowing_truncates_or_rounds_up() {
    // 1.999999999999 tokens: truncation keeps 1, rounding up owes 2.
    let almost_two = BigTokenAmount(2 * FIXED_POINT_ONE - 1);
    assert_eq!(TokenAmount::from_decimal(almost_two), TokenAmount(1));
    assert_eq!(TokenAmount::from_decimal_up(almost_two), TokenAmount(2));

    // Exact values narrow exactly either way.
    let exactly_two = BigTokenAmount(2 * FIXED_POINT_ONE);
    assert_eq!(TokenAmount::from_decimal(exactly_two), TokenAmount(2));
    assert_eq!(TokenAmount::from_decimal_up(exactly_two), TokenAmount(2));

    // The smallest non-zero remainder still rounds up to one unit.
    assert_eq!(TokenAmount::from_decimal(BigTokenAmount(1)), TokenAmount(0));
    assert_eq!(TokenAmount::from_decimal_up(BigTokenAmount(1)), TokenAmount(1));
    assert_eq!(TokenAmount::from_decimal_up(BigTokenAmount(0)), TokenAmount(0));
}

#[test]
fn sums_and_differences_are_exact() {
    assert_eq!(TokenAmount(5).sub(TokenAmount(2)), TokenAmount(3));
    assert_eq!(Liquidity::new(5).add(Liquidity::new(7)), Liquidity::new(12));
    assert_eq!(Liquidity::new(5).sub(Liquidity::new(5)), Liquidity::new(0));
    assert_eq!(
        FixedPoint::new(1).unchecked_add(FixedPoint::new(2)),
        FixedPoint::new(3)
    );
    assert_eq!(
        FeeGrowth::new(10).unchecked_add(FeeGrowth::new(20)),
        FeeGrowth::new(30)
    );
}

#[test]
fn from_fee_divides_at_fee_growth_scale() {
    // 4 tokens over liquidity 10: 0.4 fee growth per unit of liquidity.
    let growth = FeeGrowth::from_fee(Liquidity::from_integer(10), TokenAmount(4));
    assert_eq!(growth, FeeGrowth::from_scale(4, 1));
}

#[test]
fn from_fee_is_exact_when_the_product_is_wide() {
    // 10^6 tokens over raw liquidity 7: the intermediate product
    // 10^36 is wider than u128, and the truncated quotient is exact.
    let growth = FeeGrowth::from_fee(Liquidity::new(7), TokenAmount(1_000_000));
    assert_eq!(growth.0, 142_857_142_857_142_857_142_857_142_857_142_857);

    // A divisor of one keeps every digit.
    let unit = FeeGrowth::from_fee(Liquidity::new(1), TokenAmount(123));
    assert_eq!(unit.0, 123_000_000_000_000_000_000_000_000_000_000);
}

#[test]
fn big_div_truncates_towards_zero() {
    // 7 / 2 at FixedPoint scale: 3.5 exactly.
    let half = FixedPoint::from_integer(7).big_div(Liquidity::from_integer(2));
    assert_eq!(half.0, 3_500_000_000_000);

    // 1 / 3 truncates the repeating fraction.
    let third = FixedPoint::from_integer(1).big_div(Liquidity::from_integer(3));
    assert_eq!(third.0, 333_333_333_333);
}
