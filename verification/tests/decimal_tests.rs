use rust_bot::candle::Candle;
use rust_bot::decimal::{Decimal, DECIMAL_SCALE};
use rust_bot::indicators::{Indicator, IndicatorType, MAType, EMA, PMARP};
use rust_bot::interval::Interval;

#[test]
fn whole_numbers_are_scaled_by_ten_to_the_eighth() {
    assert_eq!(DECIMAL_SCALE, 100_000_000);
    assert_eq!(Decimal::from_whole(3), Some(Decimal { raw: 300_000_000 }));
    assert_eq!(Decimal::from_whole(-2), Some(Decimal { raw: -200_000_000 }));
    assert_eq!(Decimal::from_whole(92_233_720_368), Some(Decimal { raw: 9_223_372_036_800_000_000 }));
    assert_eq!(Decimal::from_whole(92_233_720_369), None);
    assert_eq!(Decimal::from_whole(-92_233_720_369), None);
}

#[test]
fn half_rounds_toward_zero() {
    assert_eq!(Decimal::new(7).half(), Decimal::new(3));
    assert_eq!(Decimal::new(-7).half(), Decimal::new(-3));
    assert_eq!(Decimal::new(0).half(), Decimal::new(0));
    assert_eq!(Decimal::new(i64::MIN).half(), Decimal::new(i64::MIN / 2));
}

#[test]
fn percent_rounds_toward_zero() {
    assert_eq!(Decimal::new(2_000_000).percent(99), Decimal::new(1_980_000));
    assert_eq!(Decimal::new(101).percent(99), Decimal::new(99));
    assert_eq!(Decimal::new(-101).percent(99), Decimal::new(-99));
    assert_eq!(Decimal::new(i64::MAX).percent(100), Decimal::new(i64::MAX));
    assert_eq!(Decimal::new(i64::MIN).percent(100), Decimal::new(i64::MIN));
    assert_eq!(Decimal::new(12345).percent(0), Decimal::new(0));
}

#[test]
fn division_is_exact_in_fixed_point() {
    let five_hundred = Decimal::from_whole(500).unwrap();
    let price = Decimal::from_whole(25_000).unwrap();
    assert_eq!(five_hundred.divided_by(price), Some(Decimal::new(2_000_000)));
    let one = Decimal::from_whole(1).unwrap();
    let three = Decimal::from_whole(3).unwrap();
    assert_eq!(one.divided_by(three), Some(Decimal::new(33_333_333)));
    assert_eq!(Decimal::new(-100_000_000).divided_by(three), Some(Decimal::new(-33_333_333)));
}

#[test]
fn division_is_undefined_for_a_divisor_that_is_not_positive_or_a_quotient_out_of_range() {
    let one = Decimal::from_whole(1).unwrap();
    assert_eq!(one.divided_by(Decimal::new(0)), None);
    assert_eq!(one.divided_by(Decimal::new(-100_000_000)), None);
    assert_eq!(Decimal::new(i64::MAX).divided_by(Decimal::new(1)), None);
}

#[test]
fn interval_lengths_and_labels() {
    assert_eq!(Interval::Minute1.seconds(), 60);
    assert_eq!(Interval::Minute5.seconds(), 300);
    assert_eq!(Interval::Minute15.seconds(), 900);
    assert_eq!(Interval::Minute30.seconds(), 1_800);
    assert_eq!(Interval::Hour1.seconds(), 3_600);
    assert_eq!(Interval::Hour4.seconds(), 14_400);
    assert_eq!(Interval::Hour12.seconds(), 43_200);
    assert_eq!(Interval::Day1.seconds(), 86_400);
    assert_eq!(Interval::Day5.seconds(), 432_000);
    assert_eq!(Interval::Week1.seconds(), 604_800);
    assert_eq!(Interval::Minute1.label(), "1m");
    assert_eq!(Interval::Hour12.label(), "12h");
    assert_eq!(Interval::Week1.label(), "1w");
}

#[test]
fn candle_records_one_value_for_each_kind() {
    let mut c = Candle::flat(1_000, Decimal::new(5));
    assert_eq!(c.open, Decimal::new(5));
    assert_eq!(c.high, Decimal::new(5));
    assert_eq!(c.low, Decimal::new(5));
    assert_eq!(c.close, Decimal::new(5));
    assert_eq!(c.volume, Decimal::new(0));
    assert_eq!(c.indicator(IndicatorType::EMA(21)), None);

    let first = Indicator::EMA(Some(EMA { value: Decimal::new(1), len: 21 }));
    let second = Indicator::EMA(Some(EMA { value: Decimal::new(2), len: 21 }));
    let other = Indicator::PMARP(Some(PMARP::new(Decimal::new(65_000_000), 20, 350)));
    c.insert_indicator(IndicatorType::EMA(21), first);
    c.insert_indicator(IndicatorType::PMARP(20, 350, MAType::VWMA), other);
    c.insert_indicator(IndicatorType::EMA(21), second);

    assert_eq!(c.indicators.len(), 2);
    assert_eq!(c.indicator(IndicatorType::EMA(21)), Some(second));
    assert_eq!(c.indicator(IndicatorType::PMARP(20, 350, MAType::VWMA)), Some(other));
    assert_eq!(c.indicator(IndicatorType::EMA(55)), None);
    assert_eq!(c.duplicate(), c);
    assert_eq!(second.as_ema(), Some(EMA { value: Decimal::new(2), len: 21 }));
    assert_eq!(second.as_sma(), None);
    assert_eq!(other.as_pmarp(), Some(PMARP { value: Decimal::new(65_000_000), len: 20, lookback: 350 }));
}
