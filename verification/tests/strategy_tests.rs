use rust_bot::candle::Candle;
use rust_bot::decimal::Decimal;
use rust_bot::interval::Interval;
use rust_bot::resolution::{
    FixedDistanceResolution, InstantResolution, IsResolutionStrategy, ResolutionError,
    ResolutionStrategy,
};
use rust_bot::setup::{Setup, SetupBuilder, SetupError, StrategyOrientation};
use rust_bot::strategy::{
    HasMinLength, RequiresIndicators, TradingDays, TradingStrategy, TrueOnceStrategy,
    TrueTwiceStrategy, Weekday,
};

fn candle(timestamp: i64, close: i64) -> Candle {
    Candle::flat(timestamp, Decimal::from_whole(close).unwrap())
}

fn setup_at(close: i64, orientation: StrategyOrientation) -> Setup {
    Setup {
        symbol: "BTCUSDT".to_string(),
        interval: Interval::Minute1,
        candle: candle(0, close),
        orientation,
    }
}

fn dec(whole: i64) -> Decimal {
    Decimal::from_whole(whole).unwrap()
}

#[test]
fn true_once_reports_a_long_setup_on_the_first_candle_once() {
    let mut s = TrueOnceStrategy::new();
    let window = vec![candle(60_000, 100), candle(120_000, 101)];
    let report = s.check_last_for_setup(&window).unwrap();
    assert_eq!(
        report,
        SetupBuilder {
            symbol: None,
            candle: Some(candle(60_000, 100)),
            interval: None,
            orientation: Some(StrategyOrientation::Long),
        }
    );
    assert!(s.triggered);
    assert_eq!(s.check_last_for_setup(&window), None);
    assert_eq!(s.check_last_for_setup(&window), None);
}

#[test]
fn true_twice_reports_on_the_second_ask_only() {
    let mut s = TrueTwiceStrategy::new();
    let window = vec![candle(60_000, 100)];
    assert_eq!(s.check_last_for_setup(&window), None);
    assert_eq!(s.triggers, 1);
    assert!(!s.triggered);
    let report = s.check_last_for_setup(&window).unwrap();
    assert_eq!(report.candle, Some(candle(60_000, 100)));
    assert_eq!(report.orientation, Some(StrategyOrientation::Long));
    assert!(s.triggered);
    assert_eq!(s.check_last_for_setup(&window), None);
    assert_eq!(s.triggers, 1);
}

#[test]
fn what_the_two_strategies_say_of_themselves() {
    let once = TrueOnceStrategy::new();
    assert_eq!(once.min_length(), 1);
    assert_eq!(once.candles_needed_for_setup(), 1);
    assert!(once.required_indicators().is_empty());
    assert_eq!(once.orientation(), StrategyOrientation::Long);
    assert_eq!(once.interval(), Interval::Minute1);
    assert_eq!(once.default_resolution_strategy(), ResolutionStrategy::Instant(InstantResolution));
    assert_eq!(once.name(), "TrueOnceStrategy");
    assert_eq!(once.duplicate(), once);

    let twice = TrueTwiceStrategy::new();
    assert_eq!(twice.min_length(), 1);
    assert_eq!(twice.candles_needed_for_setup(), 1);
    assert!(twice.required_indicators().is_empty());
    assert_eq!(twice.orientation(), StrategyOrientation::Long);
    assert_eq!(twice.interval(), Interval::Minute1);
    assert_eq!(twice.default_resolution_strategy(), ResolutionStrategy::Instant(InstantResolution));
    assert_eq!(twice.name(), "TrueTwiceStrategy");
    assert_eq!(twice.triggers, 0);
}

#[test]
fn both_strategies_trade_on_every_day() {
    let days = [
        Weekday::Mon,
        Weekday::Tue,
        Weekday::Wed,
        Weekday::Thu,
        Weekday::Fri,
        Weekday::Sat,
        Weekday::Sun,
    ];
    let once = TrueOnceStrategy::new().trading_days();
    let twice = TrueTwiceStrategy::new().trading_days();
    for day in days {
        assert!(once.contains(day));
        assert!(twice.contains(day));
    }
}

#[test]
fn trading_days_hold_what_was_inserted() {
    let mut days = TradingDays::new();
    assert!(!days.contains(Weekday::Wed));
    days.insert(Weekday::Wed);
    days.insert(Weekday::Sun);
    days.insert(Weekday::Wed);
    assert!(days.contains(Weekday::Wed));
    assert!(days.contains(Weekday::Sun));
    assert!(!days.contains(Weekday::Mon));
    assert!(!days.contains(Weekday::Sat));
}

#[test]
fn setup_builder_names_the_first_missing_part() {
    let c = candle(0, 100);
    let b = SetupBuilder::new();
    assert_eq!(b.build(), Err(SetupError::MissingSymbol));
    let b = b.symbol("BTCUSDT");
    assert_eq!(b.build(), Err(SetupError::MissingCandle));
    let b = b.candle(&c);
    assert_eq!(b.build(), Err(SetupError::MissingInterval));
    let b = b.interval(&Interval::Hour1);
    assert_eq!(b.build(), Err(SetupError::MissingOrientation));
    let b = b.orientation(&StrategyOrientation::Short);
    assert_eq!(
        b.build(),
        Ok(Setup {
            symbol: "BTCUSDT".to_string(),
            interval: Interval::Hour1,
            candle: candle(0, 100),
            orientation: StrategyOrientation::Short,
        })
    );
    let missing_symbol = SetupBuilder::new()
        .candle(&c)
        .interval(&Interval::Hour1)
        .orientation(&StrategyOrientation::Long);
    assert_eq!(missing_symbol.build(), Err(SetupError::MissingSymbol));
}

#[test]
fn setup_duplicate_and_labels() {
    let s = setup_at(100, StrategyOrientation::Long);
    assert_eq!(s.duplicate(), s);
    assert_eq!(StrategyOrientation::Long.label(), "Long");
    assert_eq!(StrategyOrientation::Short.label(), "Short");
    assert_eq!(ResolutionStrategy::Instant(InstantResolution).label(), "InstantResolution");
    assert_eq!(
        ResolutionStrategy::FixedDistance(FixedDistanceResolution::new(dec(1), dec(1))).label(),
        "FixedDistanceResolution"
    );
}

#[test]
fn instant_resolution_exits_at_once() {
    let mut r = ResolutionStrategy::Instant(InstantResolution);
    assert_eq!(r.n_candles_take_profit(), 1);
    assert_eq!(r.n_candles_stop_loss(), 1);
    assert_eq!(r.set_initial_values(&setup_at(100, StrategyOrientation::Long)), Ok(()));
    assert_eq!(r, ResolutionStrategy::Instant(InstantResolution));
    assert_eq!(r.take_profit_reached(&StrategyOrientation::Long, &[]), Ok(true));
    assert_eq!(r.stop_loss_reached(&StrategyOrientation::Short, &[candle(0, 1)]), Ok(true));
}

#[test]
fn fixed_distance_for_a_long_position() {
    let mut r = ResolutionStrategy::FixedDistance(FixedDistanceResolution::new(dec(10), dec(5)));
    assert_eq!(r.n_candles_take_profit(), 1);
    assert_eq!(r.n_candles_stop_loss(), 1);
    r.set_initial_values(&setup_at(100, StrategyOrientation::Long)).unwrap();
    assert_eq!(
        r,
        ResolutionStrategy::FixedDistance(FixedDistanceResolution {
            take_profit: dec(10),
            stop_loss: dec(5),
            entry_price: Some(dec(100)),
        })
    );
    let long = StrategyOrientation::Long;
    assert_eq!(r.take_profit_reached(&long, &[candle(1, 109)]), Ok(false));
    assert_eq!(r.take_profit_reached(&long, &[candle(1, 110)]), Ok(true));
    assert_eq!(r.take_profit_reached(&long, &[candle(1, 120), candle(2, 109)]), Ok(false));
    assert_eq!(r.stop_loss_reached(&long, &[candle(1, 96)]), Ok(false));
    assert_eq!(r.stop_loss_reached(&long, &[candle(1, 95)]), Ok(true));
    assert_eq!(r.stop_loss_reached(&long, &[candle(1, 80)]), Ok(true));
}

#[test]
fn fixed_distance_for_a_short_position() {
    let mut r = FixedDistanceResolution::new(dec(10), dec(5));
    r.set_initial_values(&setup_at(100, StrategyOrientation::Short)).unwrap();
    let short = StrategyOrientation::Short;
    assert_eq!(r.take_profit_reached(&short, &[candle(1, 91)]), Ok(false));
    assert_eq!(r.take_profit_reached(&short, &[candle(1, 90)]), Ok(true));
    assert_eq!(r.stop_loss_reached(&short, &[candle(1, 104)]), Ok(false));
    assert_eq!(r.stop_loss_reached(&short, &[candle(1, 105)]), Ok(true));
}

#[test]
fn fixed_distance_cannot_answer_without_candles_or_entry_price() {
    let mut r = FixedDistanceResolution::new(dec(10), dec(5));
    let long = StrategyOrientation::Long;
    assert_eq!(
        r.take_profit_reached(&long, &[candle(1, 200)]),
        Err(ResolutionError::NotInitialised)
    );
    assert_eq!(r.stop_loss_reached(&long, &[]), Err(ResolutionError::InsufficientCandles));
    r.set_initial_values(&setup_at(100, long)).unwrap();
    assert_eq!(r.take_profit_reached(&long, &[]), Err(ResolutionError::InsufficientCandles));
}
