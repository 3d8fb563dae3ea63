use rust_bot::addresses::{DbAddr, TimeSeriesAddr};
use rust_bot::candle::Candle;
use rust_bot::data_source::DataSource;
use rust_bot::database::{DBTrade, FinishDBTradePayload};
use rust_bot::decimal::Decimal;
use rust_bot::interval::Interval;
use rust_bot::payloads::{
    CandleAddedPayload, LatestCandleResponse, PingPayload, RequestLatestCandlesPayload,
    StopPayload,
};
use rust_bot::resolution::{
    FixedDistanceResolution, InstantResolution, ResolutionError, ResolutionStrategy,
};
use rust_bot::setup::{Setup, StrategyOrientation};
use rust_bot::strategy::TrueOnceStrategy;
use rust_bot::trade::{
    get_bars_in_trade, Trade, TradeError, TradeStatus, EXIT_GRACE_MILLIS, EXIT_QUANTITY_PERCENT,
};
use rust_bot::trade_builder::{TradeBuildError, TradeBuilder};
use uuid::Uuid;

const T: i64 = 1_700_000_040_000;

fn dec(whole: i64) -> Decimal {
    Decimal::from_whole(whole).unwrap()
}

fn candle(minute: i64, close: i64) -> Candle {
    Candle::flat(T + minute * 60_000, dec(close))
}

fn setup(orientation: StrategyOrientation) -> Setup {
    Setup {
        symbol: "BTCUSDT".to_string(),
        interval: Interval::Minute1,
        candle: candle(0, 100),
        orientation,
    }
}

fn builder(resolution: ResolutionStrategy) -> TradeBuilder<TrueOnceStrategy> {
    TradeBuilder::new()
        .id(Uuid::from_u128(7))
        .setup(setup(StrategyOrientation::Long))
        .quantity(Decimal::new(2_000_000))
        .dollar_value(dec(500))
        .source(DataSource::Dummy(1000))
        .notifications_enabled(true)
        .trading_enabled(true)
        .resolution_strategy(resolution)
        .orientation(StrategyOrientation::Long)
        .timeseries_addr(TimeSeriesAddr(1))
        .trading_strategy(TrueOnceStrategy::new())
        .db_addr(DbAddr(2))
}

fn instant() -> Trade<TrueOnceStrategy> {
    builder(ResolutionStrategy::Instant(InstantResolution)).build().unwrap()
}

fn fixed() -> Trade<TrueOnceStrategy> {
    builder(ResolutionStrategy::FixedDistance(FixedDistanceResolution::new(dec(10), dec(5))))
        .build()
        .unwrap()
}

fn window(minute: i64, close: i64) -> LatestCandleResponse {
    LatestCandleResponse {
        symbol: "BTCUSDT".to_string(),
        interval: Interval::Minute1,
        candles: vec![candle(minute - 1, close - 1), candle(minute, close)],
    }
}

fn added(minute: i64, close: i64) -> CandleAddedPayload {
    CandleAddedPayload { candle: candle(minute, close) }
}

#[test]
fn bars_in_trade_counts_whole_bars_after_grace() {
    let entered_at: i64 = T;
    let exited_at: i64 = T + 125_000;
    assert_eq!(get_bars_in_trade(&entered_at, &exited_at, &Interval::Minute1), 2);
}

#[test]
fn bars_in_trade_for_every_interval() {
    let day: i64 = 86_400_000;
    let exit: i64 = T + 14 * day;
    assert_eq!(EXIT_GRACE_MILLIS, 10_000);
    assert_eq!(get_bars_in_trade(&T, &exit, &Interval::Minute1), 20_160);
    assert_eq!(get_bars_in_trade(&T, &exit, &Interval::Minute5), 4_032);
    assert_eq!(get_bars_in_trade(&T, &exit, &Interval::Minute15), 1_344);
    assert_eq!(get_bars_in_trade(&T, &exit, &Interval::Minute30), 672);
    assert_eq!(get_bars_in_trade(&T, &exit, &Interval::Hour1), 336);
    assert_eq!(get_bars_in_trade(&T, &exit, &Interval::Hour4), 84);
    assert_eq!(get_bars_in_trade(&T, &exit, &Interval::Hour12), 28);
    assert_eq!(get_bars_in_trade(&T, &exit, &Interval::Day1), 14);
    assert_eq!(get_bars_in_trade(&T, &exit, &Interval::Day5), 2);
    assert_eq!(get_bars_in_trade(&T, &exit, &Interval::Week1), 2);
}

#[test]
fn grace_absorbs_an_exit_a_little_short_of_a_bar() {
    assert_eq!(get_bars_in_trade(&T, &(T + 49_999), &Interval::Minute1), 0);
    assert_eq!(get_bars_in_trade(&T, &(T + 50_000), &Interval::Minute1), 1);
    assert_eq!(get_bars_in_trade(&T, &(T + 109_999), &Interval::Minute1), 1);
    assert_eq!(get_bars_in_trade(&T, &T, &Interval::Minute1), 0);
}

#[test]
fn bars_in_trade_rounds_down_and_does_not_overflow() {
    assert_eq!(get_bars_in_trade(&T, &(T - 10_000), &Interval::Minute1), 0);
    assert_eq!(get_bars_in_trade(&T, &(T - 10_001), &Interval::Minute1), -1);
    assert_eq!(get_bars_in_trade(&T, &(T - 70_000), &Interval::Minute1), -1);
    assert_eq!(get_bars_in_trade(&T, &(T - 70_001), &Interval::Minute1), -2);
    assert_eq!(
        get_bars_in_trade(&i64::MIN, &i64::MAX, &Interval::Minute1),
        307_445_734_561_826
    );
    assert_eq!(
        get_bars_in_trade(&i64::MAX, &i64::MIN, &Interval::Week1),
        -30_500_568_905
    );
}

#[test]
fn trade_builder_names_the_first_missing_part() {
    let b = TradeBuilder::<TrueOnceStrategy>::new();
    assert_eq!(b.build().unwrap_err(), TradeBuildError::MissingSetup);
    let b = b.setup(setup(StrategyOrientation::Long));
    assert_eq!(b.build().unwrap_err(), TradeBuildError::MissingQuantity);
    let b = b.quantity(dec(1));
    assert_eq!(b.build().unwrap_err(), TradeBuildError::MissingDollarValue);
    let b = b.dollar_value(dec(100));
    assert_eq!(b.build().unwrap_err(), TradeBuildError::MissingSource);
    let b = b.source(DataSource::Bybit);
    assert_eq!(b.build().unwrap_err(), TradeBuildError::MissingResolutionStrategy);
    let b = b.resolution_strategy(ResolutionStrategy::Instant(InstantResolution));
    assert_eq!(b.build().unwrap_err(), TradeBuildError::MissingTimeSeries);
    let b = b.timeseries_addr(TimeSeriesAddr(1));
    assert_eq!(b.build().unwrap_err(), TradeBuildError::MissingDb);
    let b = b.db_addr(DbAddr(2));
    assert_eq!(b.build().unwrap_err(), TradeBuildError::MissingTradingStrategy);
    let b = b.trading_strategy(TrueOnceStrategy::new());
    let trade = b.build().unwrap();
    assert_eq!(trade.status, TradeStatus::Created);
    assert!(!trade.notifications_enabled);
    assert!(!trade.trading_enabled);
    assert_eq!(trade.id, b.id);
}

#[test]
fn every_new_builder_has_its_own_identifier() {
    let a = TradeBuilder::<TrueOnceStrategy>::new();
    let b = TradeBuilder::<TrueOnceStrategy>::new();
    assert_ne!(a.id, b.id);
    assert_ne!(a.id, Uuid::nil());
    assert_eq!(a.id.get_version_num(), 4);
}

#[test]
fn starting_enters_the_position_and_writes_the_record() {
    let mut trade = fixed();
    let start = trade.started().unwrap();
    assert_eq!(start.order.symbol, "BTCUSDT");
    assert_eq!(start.order.dollar_value, dec(500));
    assert_eq!(
        start.record.db_trade,
        DBTrade {
            id: Uuid::from_u128(7),
            symbol: "BTCUSDT".to_string(),
            interval: "1m".to_string(),
            orientation: "Long".to_string(),
            trading_strategy: "TrueOnceStrategy".to_string(),
            resolution_strategy: "FixedDistanceResolution".to_string(),
            data_source: "Dummy".to_string(),
            entered_at: T,
            exited_at: None,
            bars_in_trade: None,
            entry_price: dec(100),
            exit_price: None,
            quantity: Decimal::new(2_000_000),
            dollar_value: dec(500),
            entry_fee: Decimal::new(0),
            exit_fee: None,
            comments: None,
        }
    );
    assert_eq!(trade.status, TradeStatus::Entered);
    assert_eq!(
        trade.resolution_strategy,
        ResolutionStrategy::FixedDistance(FixedDistanceResolution {
            take_profit: dec(10),
            stop_loss: dec(5),
            entry_price: Some(dec(100)),
        })
    );
}

#[test]
fn a_trade_starts_once() {
    let mut trade = instant();
    assert!(trade.started().is_ok());
    assert_eq!(trade.started().unwrap_err(), TradeError::AlreadyStarted);
    assert_eq!(trade.status, TradeStatus::Entered);
    trade.handle_stop(StopPayload);
    assert_eq!(trade.started().unwrap_err(), TradeError::AlreadyStarted);
    assert_eq!(trade.status, TradeStatus::Exited);
}

#[test]
fn a_trade_that_is_not_entered_does_nothing() {
    let mut trade = instant();
    assert_eq!(trade.handle(&added(1, 100), &window(1, 100)), Ok(None));
    assert_eq!(trade.status, TradeStatus::Created);
}

#[test]
fn instant_resolution_exits_on_the_first_candle() {
    let mut trade = instant();
    trade.started().unwrap();
    assert_eq!(trade.candles_request(), RequestLatestCandlesPayload { n: 1 });

    let exit = trade
        .handle(&CandleAddedPayload { candle: Candle::flat(T + 125_000, dec(104)) }, &window(2, 104))
        .unwrap()
        .unwrap();
    assert_eq!(EXIT_QUANTITY_PERCENT, 99);
    assert_eq!(exit.order.symbol, "BTCUSDT");
    assert_eq!(exit.order.quantity, Decimal::new(1_980_000));
    assert_eq!(
        exit.record,
        FinishDBTradePayload {
            id: Uuid::from_u128(7),
            exited_at: T + 125_000,
            bars_in_trade: 2,
            exit_price: dec(104),
        }
    );
    assert_eq!(exit.stop, StopPayload);
    assert_eq!(trade.status, TradeStatus::Exited);

    assert_eq!(trade.handle(&added(3, 105), &window(3, 105)), Ok(None));
    assert_eq!(trade.status, TradeStatus::Exited);
}

#[test]
fn a_trade_stays_entered_until_an_exit_test_is_met() {
    let mut trade = fixed();
    trade.started().unwrap();
    assert_eq!(trade.handle(&added(1, 104), &window(1, 104)), Ok(None));
    assert_eq!(trade.handle(&added(2, 96), &window(2, 96)), Ok(None));
    assert_eq!(trade.handle(&added(3, 109), &window(3, 109)), Ok(None));
    assert_eq!(trade.status, TradeStatus::Entered);

    let exit = trade.handle(&added(4, 110), &window(4, 110)).unwrap().unwrap();
    assert_eq!(exit.record.exit_price, dec(110));
    assert_eq!(exit.record.exited_at, T + 240_000);
    assert_eq!(exit.record.bars_in_trade, 4);
    assert_eq!(trade.status, TradeStatus::Exited);
}

#[test]
fn stop_loss_ends_the_trade_too() {
    let mut trade = fixed();
    trade.started().unwrap();
    let exit = trade.handle(&added(1, 95), &window(1, 95)).unwrap().unwrap();
    assert_eq!(exit.record.exit_price, dec(95));
    assert_eq!(exit.record.bars_in_trade, 1);
    assert_eq!(exit.order.quantity, Decimal::new(1_980_000));
    assert_eq!(trade.status, TradeStatus::Exited);
}

#[test]
fn exit_price_and_time_come_from_the_notified_candle() {
    let mut trade = fixed();
    trade.started().unwrap();
    let exit = trade.handle(&added(7, 50), &window(3, 120)).unwrap().unwrap();
    assert_eq!(exit.record.exit_price, dec(50));
    assert_eq!(exit.record.exited_at, T + 420_000);
    assert_eq!(exit.record.bars_in_trade, 7);
}

#[test]
fn too_few_candles_leave_the_trade_as_it_is() {
    let mut trade = fixed();
    trade.started().unwrap();
    let empty = LatestCandleResponse {
        symbol: "BTCUSDT".to_string(),
        interval: Interval::Minute1,
        candles: vec![],
    };
    assert_eq!(
        trade.handle(&added(1, 200), &empty).unwrap_err(),
        TradeError::InsufficientCandles
    );
    assert_eq!(trade.status, TradeStatus::Entered);
}

#[test]
fn a_policy_that_cannot_answer_leaves_the_trade_as_it_is() {
    let mut trade = fixed();
    trade.status = TradeStatus::Entered;
    assert_eq!(
        trade.handle(&added(1, 200), &window(1, 200)).unwrap_err(),
        TradeError::Resolution(ResolutionError::NotInitialised)
    );
    assert_eq!(trade.status, TradeStatus::Entered);
}

#[test]
fn a_trade_can_be_reached_until_it_has_exited() {
    let mut trade = instant();
    assert!(trade.handle_ping(PingPayload));
    trade.started().unwrap();
    assert!(trade.handle_ping(PingPayload));
    trade.handle_stop(StopPayload);
    assert!(!trade.handle_ping(PingPayload));
    assert_eq!(trade.status, TradeStatus::Exited);
}

#[test]
fn source_labels() {
    assert_eq!(DataSource::Bybit.label(), "Bybit");
    assert_eq!(DataSource::Dummy(4000).label(), "Dummy");
}
