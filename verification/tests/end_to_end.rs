use rust_bot::addresses::{
    DbAddr, ObserverId, SetupFinderAddr, TimeSeriesAddr, TradeAddr, WebsocketClientAddr,
};
use rust_bot::bybit_ws_api::{BybitWebsocketApi, Kline, KlineResponse};
use rust_bot::calculators::ClosingAverages;
use rust_bot::data_source::{DataSource, Wallet};
use rust_bot::database::{CreateDBTradePayload, FinishDBTradePayload};
use rust_bot::decimal::Decimal;
use rust_bot::interval::Interval;
use rust_bot::resolution::{FixedDistanceResolution, ResolutionStrategy};
use rust_bot::setup::StrategyOrientation;
use rust_bot::setup_finder::{SetupOutcome, TradeSpawnedMsg};
use rust_bot::setup_finder_builder::SetupFinderBuilder;
use rust_bot::strategy::TrueOnceStrategy;
use rust_bot::timeseries::TimeSeries;
use rust_bot::trade::{Trade, TradeStatus};

fn dec(whole: i64) -> Decimal {
    Decimal::from_whole(whole).unwrap()
}

fn tick(minute: i64, close: i64) -> KlineResponse {
    let start: i64 = 1_700_000_040_000 + minute * 60_000;
    KlineResponse {
        topic: "kline.1.BTCUSDT".to_string(),
        data: vec![Kline {
            start,
            end: start + 59_999,
            open: dec(100),
            close: dec(close),
            high: dec(close + 1),
            low: dec(99),
            volume: dec(3),
            turnover: dec(300),
            confirm: false,
            timestamp: start + 500,
        }],
        ts: start + 500,
    }
}

#[test]
fn from_ticks_to_a_finished_trade() {
    let t1: i64 = 1_700_000_040_000 + 60_000;
    let mut feed = BybitWebsocketApi::new(&WebsocketClientAddr(1), Interval::Minute1);
    let mut hub = TimeSeries::new("BTCUSDT".to_string(), Interval::Minute1, ClosingAverages);
    let mut finder = SetupFinderBuilder::new()
        .strategy(TrueOnceStrategy::new())
        .ts_addr(TimeSeriesAddr(1))
        .db_addr(DbAddr(1))
        .source(DataSource::Dummy(1000))
        .live_trading_enabled(true)
        .only_trigger_once(true)
        .build()
        .unwrap();
    let finder_addr = SetupFinderAddr(10);
    let trade_addr = TradeAddr(20);
    hub.subscribe(finder.started(finder_addr));

    let mut trade: Option<Trade<TrueOnceStrategy>> = None;
    let mut created: Vec<CreateDBTradePayload> = Vec::new();
    let mut finished: Vec<FinishDBTradePayload> = Vec::new();
    let mut setups_found: usize = 0;

    // Updates of the candles C1, C2 and C3, and the first update of the one after.
    let ticks = vec![
        tick(1, 98),
        tick(1, 100),
        tick(2, 103),
        tick(2, 105),
        tick(3, 112),
        tick(4, 111),
    ];
    for update in ticks {
        let payload = match feed.handle_kline(update).unwrap() {
            Some(payload) => payload,
            None => continue,
        };
        let notices = hub.handle_websocket(&payload).unwrap();
        for notice in notices.iter() {
            if notice.observer == ObserverId(10) {
                let reachable: Vec<bool> = match &trade {
                    Some(t) => vec![t.status != TradeStatus::Exited],
                    None => vec![],
                };
                let reachable: Vec<bool> =
                    reachable.into_iter().take(finder.spawned_trade_addrs.len()).collect();
                let request = match finder.handle(&notice.payload, &reachable) {
                    Some(request) => request,
                    None => continue,
                };
                let response = hub.request_latest(request).unwrap();
                match finder.handle_candles(&response) {
                    SetupOutcome::Found { setup, open_trade, notify } => {
                        setups_found += 1;
                        assert_eq!(setup.symbol, "BTCUSDT");
                        assert_eq!(setup.interval, Interval::Minute1);
                        assert_eq!(setup.orientation, StrategyOrientation::Long);
                        assert_eq!(setup.candle.timestamp, t1);
                        assert_eq!(setup.candle.close, dec(100));
                        assert!(open_trade);
                        assert!(!notify);

                        let wallet = Wallet { total_available_balance: dec(1000) };
                        let mut spawned = finder.spawn_trade(&setup, &wallet, dec(100)).unwrap();
                        spawned.resolution_strategy = ResolutionStrategy::FixedDistance(
                            FixedDistanceResolution::new(dec(10), dec(50)),
                        );
                        let start = spawned.started().unwrap();
                        assert_eq!(start.order.symbol, "BTCUSDT");
                        assert_eq!(start.order.dollar_value, dec(500));
                        created.push(start.record);
                        trade = Some(spawned);
                    }
                    other => panic!("no setup found: {:?}", other),
                }
            } else if notice.observer == ObserverId(20) {
                let t = trade.as_mut().unwrap();
                let response = hub.request_latest(t.candles_request()).unwrap();
                if let Some(exit) = t.handle(&notice.payload, &response).unwrap() {
                    assert_eq!(exit.order.symbol, "BTCUSDT");
                    assert_eq!(exit.order.quantity, Decimal::new(495_000_000));
                    finished.push(exit.record);
                    t.handle_stop(exit.stop);
                }
            }
        }
        // A trade that was started while the notices went out follows the
        // series from the next candle on.
        if trade.is_some() && finder.spawned_trade_addrs.is_empty() && finished.is_empty() {
            let subscription = finder.handle_trade_spawned(TradeSpawnedMsg { addr: trade_addr });
            hub.subscribe(subscription);
        }
    }

    assert_eq!(hub.candles.len(), 3);
    assert_eq!(setups_found, 1);
    assert!(finder.triggered);

    assert_eq!(created.len(), 1);
    let record = &created[0].db_trade;
    let id = trade.as_ref().unwrap().id;
    assert_eq!(record.id, id);
    assert_eq!(record.symbol, "BTCUSDT");
    assert_eq!(record.interval, "1m");
    assert_eq!(record.orientation, "Long");
    assert_eq!(record.trading_strategy, "TrueOnceStrategy");
    assert_eq!(record.data_source, "Dummy");
    assert_eq!(record.entered_at, t1);
    assert_eq!(record.entry_price, dec(100));
    assert_eq!(record.quantity, dec(5));
    assert_eq!(record.dollar_value, dec(500));
    assert_eq!(record.exited_at, None);
    assert_eq!(record.exit_price, None);
    assert_eq!(record.bars_in_trade, None);

    assert_eq!(
        finished,
        vec![FinishDBTradePayload {
            id,
            exited_at: t1 + 120_000,
            bars_in_trade: 2,
            exit_price: dec(112),
        }]
    );
    assert_eq!(trade.unwrap().status, TradeStatus::Exited);
}
