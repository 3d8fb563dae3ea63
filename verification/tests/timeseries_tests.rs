use rust_bot::addresses::ObserverId;
use rust_bot::calculators::ClosingAverages;
use rust_bot::candle::Candle;
use rust_bot::decimal::Decimal;
use rust_bot::indicators::{Indicator, IndicatorType, SMA};
use rust_bot::interval::Interval;
use rust_bot::payloads::{RequestLatestCandlesPayload, TSSubscribePayload, WebsocketPayload};
use rust_bot::timeseries::{TimeSeries, TimeSeriesError};
use rust_bot::timeseries_builder::TimeSeriesBuilder;

fn dec(whole: i64) -> Decimal {
    Decimal::from_whole(whole).unwrap()
}

fn series() -> TimeSeries<ClosingAverages> {
    TimeSeries::new("BTCUSDT".to_string(), Interval::Minute1, ClosingAverages)
}

fn candle(minute: i64, close: i64) -> Candle {
    Candle::new(
        minute * 60_000,
        dec(close),
        dec(close + 5),
        dec(close - 5),
        dec(close),
        dec(1),
    )
}

#[test]
fn appending_increasing_candles_keeps_them_in_order() {
    let mut ts = series();
    let input = vec![candle(1, 100), candle(2, 110), candle(5, 90), candle(6, 95)];
    for c in input.iter() {
        assert!(ts.add_candle(c).is_ok());
    }
    assert_eq!(ts.candles, input);
}

#[test]
fn candle_that_does_not_start_later_is_refused() {
    let mut ts = series();
    ts.add_candle(&candle(1, 100)).unwrap();
    ts.add_candle(&candle(2, 110)).unwrap();

    let earlier = ts.add_candle(&candle(1, 120));
    assert_eq!(earlier.unwrap_err(), TimeSeriesError::Validation);
    let same = ts.add_candle(&candle(2, 120));
    assert_eq!(same.unwrap_err(), TimeSeriesError::Validation);

    assert_eq!(ts.candles, vec![candle(1, 100), candle(2, 110)]);
}

#[test]
fn first_candle_is_always_accepted() {
    let mut ts = series();
    assert!(ts.add_candle(&candle(-7, 100)).is_ok());
    assert_eq!(ts.candles.len(), 1);
}

#[test]
fn without_validation_any_candle_is_appended() {
    let mut ts = TimeSeriesBuilder::new(ClosingAverages)
        .symbol("BTCUSDT".to_string())
        .interval(Interval::Day1)
        .validate_candles_on_add(false)
        .build();
    ts.add_candle(&candle(2, 100)).unwrap();
    ts.add_candle(&candle(2, 101)).unwrap();
    ts.add_candle(&candle(1, 102)).unwrap();
    assert_eq!(ts.candles, vec![candle(2, 100), candle(2, 101), candle(1, 102)]);
}

#[test]
fn builder_defaults() {
    let ts = TimeSeriesBuilder::new(ClosingAverages).build();
    assert_eq!(ts.symbol, "BTCUSDT");
    assert_eq!(ts.interval, Interval::Day1);
    assert!(ts.validate_candles_on_add);
    assert!(ts.candles.is_empty());
    assert!(ts.indicators.is_empty());
    assert!(ts.observers.is_empty());
}

#[test]
fn every_subscriber_is_told_once_in_subscription_order() {
    let mut ts = series();
    ts.subscribe(TSSubscribePayload { observer: ObserverId(7) });
    ts.subscribe(TSSubscribePayload { observer: ObserverId(3) });
    ts.subscribe(TSSubscribePayload { observer: ObserverId(7) });
    ts.subscribe(TSSubscribePayload { observer: ObserverId(9) });
    assert_eq!(ts.observers, vec![ObserverId(7), ObserverId(3), ObserverId(9)]);

    let notices = ts.add_candle(&candle(1, 100)).unwrap();
    assert_eq!(notices.len(), 3);
    assert_eq!(notices[0].observer, ObserverId(7));
    assert_eq!(notices[1].observer, ObserverId(3));
    assert_eq!(notices[2].observer, ObserverId(9));
    for notice in notices.iter() {
        assert_eq!(notice.payload.candle, candle(1, 100));
    }
}

#[test]
fn refused_candle_notifies_nobody() {
    let mut ts = series();
    ts.subscribe(TSSubscribePayload { observer: ObserverId(1) });
    ts.add_candle(&candle(2, 100)).unwrap();
    assert!(ts.add_candle(&candle(2, 100)).is_err());
    assert_eq!(ts.observers, vec![ObserverId(1)]);
}

#[test]
fn unsubscribed_observer_is_no_longer_told() {
    let mut ts = series();
    ts.subscribe(TSSubscribePayload { observer: ObserverId(1) });
    ts.subscribe(TSSubscribePayload { observer: ObserverId(2) });
    ts.subscribe(TSSubscribePayload { observer: ObserverId(3) });
    ts.unsubscribe(ObserverId(2));
    ts.unsubscribe(ObserverId(8));
    assert_eq!(ts.observers, vec![ObserverId(1), ObserverId(3)]);
    let notices = ts.add_candle(&candle(1, 100)).unwrap();
    assert_eq!(notices.len(), 2);
    assert_eq!(notices[0].observer, ObserverId(1));
    assert_eq!(notices[1].observer, ObserverId(3));
}

#[test]
fn latest_candles_are_the_last_ones_oldest_first() {
    let mut ts = series();
    for minute in 1..=5 {
        ts.add_candle(&candle(minute, 100 + minute)).unwrap();
    }
    let response = ts.request_latest(RequestLatestCandlesPayload { n: 2 }).unwrap();
    assert_eq!(response.symbol, "BTCUSDT");
    assert_eq!(response.interval, Interval::Minute1);
    assert_eq!(response.candles, vec![candle(4, 104), candle(5, 105)]);

    let all = ts.request_latest(RequestLatestCandlesPayload { n: 5 }).unwrap();
    assert_eq!(all.candles.len(), 5);
    assert_eq!(all.candles[0], candle(1, 101));

    let none = ts.request_latest(RequestLatestCandlesPayload { n: 0 }).unwrap();
    assert!(none.candles.is_empty());
}

#[test]
fn asking_for_more_candles_than_held_fails() {
    let mut ts = series();
    ts.add_candle(&candle(1, 100)).unwrap();
    let r = ts.request_latest(RequestLatestCandlesPayload { n: 2 });
    assert_eq!(r.unwrap_err(), TimeSeriesError::InsufficientHistory);
}

#[test]
fn registering_an_indicator_fills_in_the_whole_history() {
    let mut ts = series();
    ts.add_candle(&candle(1, 100)).unwrap();
    ts.add_candle(&candle(2, 110)).unwrap();
    ts.add_candle(&candle(3, 121)).unwrap();

    let kind = IndicatorType::SMA(2);
    ts.add_indicator(kind).unwrap();
    assert_eq!(ts.indicators, vec![kind]);

    assert_eq!(ts.candles[0].indicator(kind), Some(Indicator::SMA(None)));
    assert_eq!(
        ts.candles[1].indicator(kind),
        Some(Indicator::SMA(Some(SMA { value: dec(105), len: 2 })))
    );
    assert_eq!(
        ts.candles[2].indicator(kind),
        Some(Indicator::SMA(Some(SMA { value: Decimal::new(11_550_000_000), len: 2 })))
    );
}

#[test]
fn registered_indicator_is_computed_for_every_new_candle() {
    let mut ts = series();
    let kind = IndicatorType::SMA(3);
    ts.add_indicator(kind).unwrap();
    ts.subscribe(TSSubscribePayload { observer: ObserverId(1) });

    ts.add_candle(&candle(1, 90)).unwrap();
    ts.add_candle(&candle(2, 100)).unwrap();
    let notices = ts.add_candle(&candle(3, 110)).unwrap();

    let expected = Indicator::SMA(Some(SMA { value: dec(100), len: 3 }));
    assert_eq!(ts.candles[0].indicator(kind), Some(Indicator::SMA(None)));
    assert_eq!(ts.candles[1].indicator(kind), Some(Indicator::SMA(None)));
    assert_eq!(ts.candles[2].indicator(kind), Some(expected));
    assert_eq!(notices[0].payload.candle.indicator(kind), Some(expected));
}

#[test]
fn registering_twice_keeps_one_registration() {
    let mut ts = series();
    ts.add_indicator(IndicatorType::SMA(2)).unwrap();
    ts.add_indicator(IndicatorType::SMA(3)).unwrap();
    ts.add_indicator(IndicatorType::SMA(2)).unwrap();
    assert_eq!(ts.indicators, vec![IndicatorType::SMA(2), IndicatorType::SMA(3)]);
}

#[test]
fn unsupported_indicator_is_refused_and_changes_nothing() {
    let mut ts = series();
    ts.add_candle(&candle(1, 100)).unwrap();
    assert_eq!(
        ts.add_indicator(IndicatorType::EMA(21)).unwrap_err(),
        TimeSeriesError::UnsupportedIndicator
    );
    assert_eq!(
        ts.add_indicator(IndicatorType::SMA(0)).unwrap_err(),
        TimeSeriesError::UnsupportedIndicator
    );
    assert!(ts.indicators.is_empty());
    assert_eq!(ts.candles, vec![candle(1, 100)]);
}

#[test]
fn indicators_that_a_candle_comes_with_are_kept() {
    let mut ts = series();
    ts.add_indicator(IndicatorType::SMA(1)).unwrap();
    let mut c = candle(1, 100);
    let brought = Indicator::SMA(Some(SMA { value: dec(1), len: 9 }));
    c.insert_indicator(IndicatorType::SMA(9), brought);
    c.insert_indicator(IndicatorType::SMA(1), brought);
    ts.add_candle(&c).unwrap();
    assert_eq!(ts.candles[0].indicator(IndicatorType::SMA(9)), Some(brought));
    assert_eq!(
        ts.candles[0].indicator(IndicatorType::SMA(1)),
        Some(Indicator::SMA(Some(SMA { value: dec(100), len: 1 })))
    );
}

#[test]
fn feed_payload_with_a_candle_is_appended() {
    let mut ts = series();
    ts.subscribe(TSSubscribePayload { observer: ObserverId(4) });
    let payload = WebsocketPayload { ok: true, message: None, candle: Some(candle(1, 100)) };
    let notices = ts.handle_websocket(&payload).unwrap();
    assert_eq!(notices.len(), 1);
    assert_eq!(ts.candles, vec![candle(1, 100)]);
    assert_eq!(
        ts.handle_websocket(&payload).unwrap_err(),
        TimeSeriesError::Validation
    );
}

#[test]
fn feed_payload_without_a_candle_is_passed_over() {
    let mut ts = series();
    ts.subscribe(TSSubscribePayload { observer: ObserverId(4) });
    let failed = WebsocketPayload {
        ok: false,
        message: Some("connection lost".to_string()),
        candle: Some(candle(1, 100)),
    };
    assert!(ts.handle_websocket(&failed).unwrap().is_empty());
    let empty = WebsocketPayload { ok: true, message: None, candle: None };
    assert!(ts.handle_websocket(&empty).unwrap().is_empty());
    assert!(ts.candles.is_empty());
}
