use rust_bot::addresses::{DbAddr, ObserverId, SetupFinderAddr, TimeSeriesAddr, TradeAddr};
use rust_bot::candle::Candle;
use rust_bot::data_source::{DataSource, Wallet};
use rust_bot::decimal::Decimal;
use rust_bot::interval::Interval;
use rust_bot::payloads::{
    CandleAddedPayload, LatestCandleResponse, RequestLatestCandlesPayload, TSSubscribePayload,
    TriggeredPayload,
};
use rust_bot::resolution::{InstantResolution, ResolutionStrategy};
use rust_bot::setup::{Setup, StrategyOrientation};
use rust_bot::setup_finder::{
    SetupFinder, SetupFinderBuildError, SetupOutcome, SpawnError, TradeSpawnedMsg,
};
use rust_bot::setup_finder_builder::SetupFinderBuilder;
use rust_bot::strategy::{TrueOnceStrategy, TrueTwiceStrategy};
use rust_bot::trade::TradeStatus;

fn dec(whole: i64) -> Decimal {
    Decimal::from_whole(whole).unwrap()
}

fn candle(minute: i64, close: i64) -> Candle {
    Candle::flat(minute * 60_000, dec(close))
}

fn added(minute: i64, close: i64) -> CandleAddedPayload {
    CandleAddedPayload { candle: candle(minute, close) }
}

fn response(minute: i64, close: i64) -> LatestCandleResponse {
    LatestCandleResponse {
        symbol: "BTCUSDT".to_string(),
        interval: Interval::Minute1,
        candles: vec![candle(minute, close)],
    }
}

fn setup(minute: i64, close: i64) -> Setup {
    Setup {
        symbol: "BTCUSDT".to_string(),
        interval: Interval::Minute1,
        candle: candle(minute, close),
        orientation: StrategyOrientation::Long,
    }
}

fn finder(once: bool, live: bool, notify: bool) -> SetupFinder<TrueOnceStrategy> {
    SetupFinderBuilder::new()
        .strategy(TrueOnceStrategy::new())
        .ts_addr(TimeSeriesAddr(1))
        .db_addr(DbAddr(2))
        .source(DataSource::Dummy(1000))
        .only_trigger_once(once)
        .live_trading_enabled(live)
        .notifications_enabled(notify)
        .build()
        .unwrap()
}

#[test]
fn once_only_finder_fires_exactly_once() {
    let mut sf = finder(true, false, true);
    let none: Vec<bool> = vec![];

    let request = sf.handle(&added(1, 100), &none);
    assert_eq!(request, Some(RequestLatestCandlesPayload { n: 1 }));
    let outcome = sf.handle_candles(&response(1, 100));
    assert_eq!(
        outcome,
        SetupOutcome::Found { setup: setup(1, 100), open_trade: false, notify: true }
    );
    assert!(sf.triggered);

    for minute in 2..20 {
        assert_eq!(sf.handle(&added(minute, 100 + minute), &none), None);
        assert_eq!(sf.handle_candles(&response(minute, 100 + minute)), SetupOutcome::Spent);
        assert!(sf.triggered);
    }
}

#[test]
fn finder_that_may_fire_again_fires_on_every_candle() {
    let mut sf = finder(false, false, false);
    let none: Vec<bool> = vec![];
    for minute in 1..5 {
        assert_eq!(
            sf.handle(&added(minute, 100), &none),
            Some(RequestLatestCandlesPayload { n: 1 })
        );
        assert_eq!(
            sf.handle_candles(&response(minute, 100)),
            SetupOutcome::Found { setup: setup(minute, 100), open_trade: false, notify: false }
        );
    }
    assert!(sf.triggered);
    assert!(!sf.strategy.triggered);
}

#[test]
fn no_second_trade_while_one_is_live() {
    let mut sf = finder(false, true, true);
    let none: Vec<bool> = vec![];

    sf.handle(&added(1, 100), &none);
    let first = sf.handle_candles(&response(1, 100));
    assert_eq!(
        first,
        SetupOutcome::Found { setup: setup(1, 100), open_trade: true, notify: true }
    );
    let subscription = sf.handle_trade_spawned(TradeSpawnedMsg { addr: TradeAddr(77) });
    assert_eq!(subscription, TSSubscribePayload { observer: ObserverId(77) });
    assert_eq!(sf.spawned_trade_addrs, vec![TradeAddr(77)]);

    for minute in 2..6 {
        sf.handle(&added(minute, 100), &vec![true]);
        assert_eq!(
            sf.handle_candles(&response(minute, 100)),
            SetupOutcome::AlreadyInTrade(setup(minute, 100))
        );
        assert_eq!(sf.spawned_trade_addrs, vec![TradeAddr(77)]);
    }

    sf.handle(&added(6, 100), &vec![false]);
    assert!(sf.spawned_trade_addrs.is_empty());
    assert_eq!(
        sf.handle_candles(&response(6, 100)),
        SetupOutcome::Found { setup: setup(6, 100), open_trade: true, notify: true }
    );
}

#[test]
fn only_the_trades_that_answer_the_probe_are_kept() {
    let addrs = [TradeAddr(1), TradeAddr(2), TradeAddr(3), TradeAddr(4)];
    let mut sf = SetupFinderBuilder::new()
        .strategy(TrueOnceStrategy::new())
        .ts_addr(TimeSeriesAddr(1))
        .db_addr(DbAddr(2))
        .source(DataSource::Bybit)
        .spawned_trades(&addrs)
        .build()
        .unwrap();
    sf.clear_closed_trades(&vec![true, false, true]);
    assert_eq!(sf.spawned_trade_addrs, vec![TradeAddr(1), TradeAddr(3)]);
    sf.clear_closed_trades(&vec![false, true, true, true]);
    assert_eq!(sf.spawned_trade_addrs, vec![TradeAddr(3)]);
    sf.clear_closed_trades(&vec![]);
    assert!(sf.spawned_trade_addrs.is_empty());
}

#[test]
fn spent_finder_does_not_probe_its_trades() {
    let mut sf = finder(true, true, false);
    sf.handle_triggered(TriggeredPayload);
    sf.handle_trade_spawned(TradeSpawnedMsg { addr: TradeAddr(5) });
    assert_eq!(sf.handle(&added(1, 100), &vec![false]), None);
    assert_eq!(sf.spawned_trade_addrs, vec![TradeAddr(5)]);
}

#[test]
fn strategy_without_a_setup_leaves_the_finder_untriggered() {
    let mut sf = SetupFinderBuilder::new()
        .strategy(TrueTwiceStrategy::new())
        .ts_addr(TimeSeriesAddr(1))
        .db_addr(DbAddr(2))
        .source(DataSource::Bybit)
        .only_trigger_once(true)
        .build()
        .unwrap();
    let none: Vec<bool> = vec![];
    for minute in 1..4 {
        assert_eq!(
            sf.handle(&added(minute, 100), &none),
            Some(RequestLatestCandlesPayload { n: 1 })
        );
        assert_eq!(sf.handle_candles(&response(minute, 100)), SetupOutcome::NoSetup);
        assert!(!sf.triggered);
    }
    assert_eq!(sf.strategy.triggers, 0);
}

#[test]
fn too_few_candles_are_no_setup() {
    let mut sf = finder(true, true, true);
    let empty = LatestCandleResponse {
        symbol: "BTCUSDT".to_string(),
        interval: Interval::Minute1,
        candles: vec![],
    };
    assert_eq!(sf.handle_candles(&empty), SetupOutcome::InsufficientCandles);
    assert!(!sf.triggered);
}

#[test]
fn setup_takes_symbol_and_interval_from_the_series() {
    let mut sf = finder(false, false, false);
    let answer = LatestCandleResponse {
        symbol: "ETHUSDT".to_string(),
        interval: Interval::Hour1,
        candles: vec![candle(3, 50), candle(4, 60)],
    };
    match sf.handle_candles(&answer) {
        SetupOutcome::Found { setup, .. } => {
            assert_eq!(setup.symbol, "ETHUSDT");
            assert_eq!(setup.interval, Interval::Hour1);
            assert_eq!(setup.candle, candle(3, 50));
            assert_eq!(setup.orientation, StrategyOrientation::Long);
        }
        other => panic!("no setup found: {:?}", other),
    }
}

#[test]
fn finder_builder_names_the_first_missing_part() {
    let b = SetupFinderBuilder::<TrueOnceStrategy>::new();
    assert_eq!(b.build().unwrap_err(), SetupFinderBuildError::MissingStrategy);
    let b = SetupFinderBuilder::new().strategy(TrueOnceStrategy::new());
    assert_eq!(b.build().unwrap_err(), SetupFinderBuildError::MissingTimeSeries);
    let b = SetupFinderBuilder::new().strategy(TrueOnceStrategy::new()).ts_addr(TimeSeriesAddr(1));
    assert_eq!(b.build().unwrap_err(), SetupFinderBuildError::MissingSource);
    let b = SetupFinderBuilder::new()
        .strategy(TrueOnceStrategy::new())
        .ts_addr(TimeSeriesAddr(1))
        .source(DataSource::Bybit);
    assert_eq!(b.build().unwrap_err(), SetupFinderBuildError::MissingDb);
    let b = SetupFinderBuilder::<TrueOnceStrategy>::new()
        .db_addr(DbAddr(1))
        .source(DataSource::Bybit)
        .ts_addr(TimeSeriesAddr(1));
    assert_eq!(b.build().unwrap_err(), SetupFinderBuildError::MissingStrategy);
}

#[test]
fn built_finder_holds_what_it_was_given() {
    let sf = SetupFinderBuilder::new()
        .strategy(TrueOnceStrategy::new())
        .ts_addr(TimeSeriesAddr(11))
        .db_addr(DbAddr(12))
        .source(DataSource::Dummy(4000))
        .build()
        .unwrap();
    assert_eq!(
        sf,
        SetupFinder {
            strategy: TrueOnceStrategy::new(),
            ts_addr: TimeSeriesAddr(11),
            db_addr: DbAddr(12),
            source: DataSource::Dummy(4000),
            notifications_enabled: false,
            live_trading_enabled: false,
            only_trigger_once: false,
            triggered: false,
            spawned_trade_addrs: vec![],
        }
    );
    assert_eq!(
        sf.started(SetupFinderAddr(9)),
        TSSubscribePayload { observer: ObserverId(9) }
    );
    let direct = SetupFinder::new(
        TrueOnceStrategy::new(),
        TimeSeriesAddr(11),
        DbAddr(12),
        true,
        true,
        true,
        &[TradeAddr(3)],
        DataSource::Bybit,
    )
    .unwrap();
    assert!(direct.notifications_enabled);
    assert!(direct.live_trading_enabled);
    assert!(direct.only_trigger_once);
    assert!(!direct.triggered);
    assert_eq!(direct.spawned_trade_addrs, vec![TradeAddr(3)]);
}

#[test]
fn trade_is_sized_at_half_the_balance() {
    let sf = finder(false, true, true);
    let wallet = Wallet { total_available_balance: dec(1000) };
    let trade = sf.spawn_trade(&setup(1, 25_000), &wallet, dec(25_000)).unwrap();
    assert_eq!(trade.dollar_value, dec(500));
    assert_eq!(trade.quantity, Decimal::new(2_000_000));
    assert_eq!(trade.setup, setup(1, 25_000));
    assert_eq!(trade.source, DataSource::Dummy(1000));
    assert!(trade.notifications_enabled);
    assert!(trade.trading_enabled);
    assert_eq!(trade.resolution_strategy, ResolutionStrategy::Instant(InstantResolution));
    assert_eq!(trade.trading_strategy, TrueOnceStrategy::new());
    assert_eq!(trade.timeseries, TimeSeriesAddr(1));
    assert_eq!(trade.db_addr, DbAddr(2));
    assert_eq!(trade.status, TradeStatus::Created);

    let other = sf.spawn_trade(&setup(1, 25_000), &wallet, dec(25_000)).unwrap();
    assert_ne!(trade.id, other.id);
}

#[test]
fn quantity_is_rounded_toward_zero() {
    let sf = finder(false, true, false);
    let wallet = Wallet { total_available_balance: Decimal::new(100_000_001) };
    let trade = sf.spawn_trade(&setup(1, 3), &wallet, dec(3)).unwrap();
    assert_eq!(trade.dollar_value, Decimal::new(50_000_000));
    assert_eq!(trade.quantity, Decimal::new(16_666_666));
}

#[test]
fn no_trade_without_a_positive_price() {
    let sf = finder(false, true, false);
    let wallet = Wallet { total_available_balance: dec(1000) };
    assert_eq!(
        sf.spawn_trade(&setup(1, 100), &wallet, Decimal::new(0)).unwrap_err(),
        SpawnError::Unsizable
    );
    assert_eq!(
        sf.spawn_trade(&setup(1, 100), &wallet, Decimal::new(-5)).unwrap_err(),
        SpawnError::Unsizable
    );
    let rich = Wallet { total_available_balance: Decimal::new(i64::MAX) };
    assert_eq!(
        sf.spawn_trade(&setup(1, 100), &rich, Decimal::new(1)).unwrap_err(),
        SpawnError::Unsizable
    );
}
