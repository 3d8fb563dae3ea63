use crate::candle::{Candle, CandleView};
use crate::decimal::Decimal;
use crate::indicators::{Indicator, IndicatorType, MAType, BBWP, EMA, PMAR, SMA};
use crate::payloads::{WebsocketPayload, WebsocketPayloadView};
use vstd::prelude::*;

verus! {

/// Start of the hand-made candles, in milliseconds since the epoch.
pub const MANUAL_START: i64 = 1_700_000_000_000;

/// The price of the hand-made candles: 1000.
pub const MANUAL_PRICE: i64 = 100_000_000_000;

pub open spec fn ema_21() -> Indicator {
    Indicator::EMA(Some(EMA { value: Decimal { raw: 95_000_000_000 }, len: 21 }))
}

pub open spec fn ema_55() -> Indicator {
    Indicator::EMA(Some(EMA { value: Decimal { raw: 94_000_000_000 }, len: 55 }))
}

pub open spec fn pmar_55() -> Indicator {
    Indicator::PMAR(
        Some(
            PMAR {
                value: Decimal { raw: 90_000_000 },
                len: 55,
                ma: Some(Decimal { raw: 90_000_000 }),
            },
        ),
    )
}

/// The band width percentile of the candle before the entry: 0.1, on an
/// average of 0.1.
pub open spec fn bbwp_prev() -> Indicator {
    Indicator::BBWP(
        Some(
            BBWP {
                value: Decimal { raw: 10_000_000 },
                len: 13,
                lookback: 252,
                sma: Some(SMA { value: Decimal { raw: 10_000_000 }, len: 5 }),
            },
        ),
    )
}

/// The band width percentile of the entry candle: 0.07, on an average of
/// 0.085.
pub open spec fn bbwp_curr() -> Indicator {
    Indicator::BBWP(
        Some(
            BBWP {
                value: Decimal { raw: 7_000_000 },
                len: 13,
                lookback: 252,
                sma: Some(SMA { value: Decimal { raw: 8_500_000 }, len: 5 }),
            },
        ),
    )
}

/// The hand-made candle that the two initial candles start from.
pub open spec fn manual_candle() -> CandleView {
    CandleView {
        timestamp: MANUAL_START,
        open: Decimal { raw: MANUAL_PRICE },
        high: Decimal { raw: MANUAL_PRICE },
        low: Decimal { raw: MANUAL_PRICE },
        close: Decimal { raw: MANUAL_PRICE },
        volume: Decimal { raw: 0 },
        indicators: Map::empty(),
    }
}

/// `candle` with the four indicator values of an entry recorded on it.
pub open spec fn filled(candle: CandleView) -> CandleView {
    candle.with_indicator(IndicatorType::EMA(21), ema_21()).with_indicator(
        IndicatorType::EMA(55),
        ema_55(),
    ).with_indicator(IndicatorType::PMAR(55, MAType::EMA), pmar_55()).with_indicator(
        IndicatorType::BBWP(13, 252),
        bbwp_curr(),
    )
}

/// The payload by which a feed hands `candle` to a series.
pub fn candle_payload(candle: &Candle) -> (payload: WebsocketPayload)
    ensures
        payload@ == (WebsocketPayloadView { candle: Some(candle@), ok: true, message: None }),
{
    WebsocketPayload { candle: Some(candle.duplicate()), ok: true, message: None }
}

/// The candle before the entry, which carries the earlier band width
/// percentile only, and the entry candle, which carries all four values.
/// Both start at the same time.
pub fn get_initial_candles() -> (candles: (Candle, Candle))
    ensures
        candles.0@ == manual_candle().with_indicator(IndicatorType::BBWP(13, 252), bbwp_prev()),
        candles.1@ == filled(manual_candle()),
{
    let (ema_21_type, ema_55_type, pmar_type, bbwp_type) = get_indicator_types();
    let (ema_21, ema_55, pmar, bbwp_prev, bbwp_curr) = get_indicators();

    let mut base_candle = Candle::flat(MANUAL_START, Decimal::new(MANUAL_PRICE));
    base_candle.insert_indicator(bbwp_type, Indicator::BBWP(bbwp_prev.as_bbwp()));

    let mut entry_candle = Candle::flat(MANUAL_START, Decimal::new(MANUAL_PRICE));
    entry_candle.insert_indicator(ema_21_type, Indicator::EMA(ema_21.as_ema()));
    entry_candle.insert_indicator(ema_55_type, Indicator::EMA(ema_55.as_ema()));
    entry_candle.insert_indicator(pmar_type, Indicator::PMAR(pmar.as_pmar()));
    entry_candle.insert_indicator(bbwp_type, Indicator::BBWP(bbwp_curr.as_bbwp()));

    (base_candle, entry_candle)
}

/// The kinds of the four indicators that the hand-made candles carry.
pub fn get_indicator_types() -> (kinds: (IndicatorType, IndicatorType, IndicatorType, IndicatorType))
    ensures
        kinds == (
            IndicatorType::EMA(21),
            IndicatorType::EMA(55),
            IndicatorType::PMAR(55, MAType::EMA),
            IndicatorType::BBWP(13, 252),
        ),
{
    let ema_21_type = IndicatorType::EMA(21);

    let ema_55_type = IndicatorType::EMA(55);

    let pmar_type = IndicatorType::PMAR(55, MAType::EMA);

    let bbwp_type = IndicatorType::BBWP(13, 252);

    (ema_21_type, ema_55_type, pmar_type, bbwp_type)
}

/// The indicator values that the hand-made candles carry: the two moving
/// averages, the ratio, and the band width percentile before and at the
/// entry.
pub fn get_indicators() -> (values: (Indicator, Indicator, Indicator, Indicator, Indicator))
    ensures
        values == (ema_21(), ema_55(), pmar_55(), bbwp_prev(), bbwp_curr()),
{
    let ema_21 = EMA { value: Decimal::new(95_000_000_000), len: 21 };
    let ema_55 = EMA { value: Decimal::new(94_000_000_000), len: 55 };
    let pmar = PMAR {
        value: Decimal::new(90_000_000),
        len: 55,
        ma: Some(Decimal::new(90_000_000)),
    };
    let bbwp_prev = BBWP {
        value: Decimal::new(10_000_000),
        len: 13,
        lookback: 252,
        sma: Some(SMA { value: Decimal::new(10_000_000), len: 5 }),
    };
    let bbwp_curr = BBWP {
        value: Decimal::new(7_000_000),
        len: 13,
        lookback: 252,
        sma: Some(SMA { value: Decimal::new(8_500_000), len: 5 }),
    };

    (
        Indicator::EMA(Some(ema_21)),
        Indicator::EMA(Some(ema_55)),
        Indicator::PMAR(Some(pmar)),
        Indicator::BBWP(Some(bbwp_prev)),
        Indicator::BBWP(Some(bbwp_curr)),
    )
}

/// Records the four indicator values of an entry on `candle`.
pub fn fill_candle(candle: Candle) -> (filled_candle: Candle)
    ensures
        filled_candle@ == filled(candle@),
{
    let mut candle = candle;
    let (ema_21_type, ema_55_type, pmar_type, bbwp_type) = get_indicator_types();
    let (ema_21, ema_55, pmar, _bbwp_prev, bbwp_curr) = get_indicators();

    candle.insert_indicator(ema_21_type, Indicator::EMA(ema_21.as_ema()));
    candle.insert_indicator(ema_55_type, Indicator::EMA(ema_55.as_ema()));
    candle.insert_indicator(pmar_type, Indicator::PMAR(pmar.as_pmar()));
    candle.insert_indicator(bbwp_type, Indicator::BBWP(bbwp_curr.as_bbwp()));

    candle
}

} // verus!
