use crate::addresses::ObserverId;
use crate::candle::{candle_views, Candle, CandleView};
use crate::interval::Interval;
use vstd::prelude::*;

verus! {

/// Tells a subscriber that a candle was appended to the series it follows.
#[derive(Debug, PartialEq, Eq)]
pub struct CandleAddedPayload {
    pub candle: Candle,
}

/// Asks a series for its `n` most recent candles.
#[derive(Clone, Copy, Debug, PartialEq, Eq, Structural)]
pub struct RequestLatestCandlesPayload {
    pub n: usize,
}

/// The answer to a `RequestLatestCandlesPayload`: the candles, oldest first,
/// and what series they belong to.
#[derive(Debug, PartialEq, Eq)]
pub struct LatestCandleResponse {
    pub symbol: String,
    pub interval: Interval,
    pub candles: Vec<Candle>,
}

pub struct LatestCandleResponseView {
    pub symbol: Seq<char>,
    pub interval: Interval,
    pub candles: Seq<CandleView>,
}

impl View for LatestCandleResponse {
    type V = LatestCandleResponseView;

    open spec fn view(&self) -> LatestCandleResponseView {
        LatestCandleResponseView {
            symbol: self.symbol@,
            interval: self.interval,
            candles: candle_views(self.candles@),
        }
    }
}

/// Adds `observer` to the subscribers of a series.
#[derive(Clone, Copy, Debug, PartialEq, Eq, Structural)]
pub struct TSSubscribePayload {
    pub observer: ObserverId,
}

/// What the market-data feed hands to a series: a closed candle, or word that
/// something went wrong.
#[derive(Debug, PartialEq, Eq)]
pub struct WebsocketPayload {
    pub ok: bool,
    pub message: Option<String>,
    pub candle: Option<Candle>,
}

pub struct WebsocketPayloadView {
    pub ok: bool,
    pub message: Option<Seq<char>>,
    pub candle: Option<CandleView>,
}

impl View for WebsocketPayload {
    type V = WebsocketPayloadView;

    open spec fn view(&self) -> WebsocketPayloadView {
        WebsocketPayloadView {
            ok: self.ok,
            message: match self.message {
                Some(m) => Some(m@),
                None => None,
            },
            candle: match self.candle {
                Some(c) => Some(c@),
                None => None,
            },
        }
    }
}

/// Tells a setup finder that its strategy has fired.
#[derive(Clone, Copy, Debug, PartialEq, Eq, Structural)]
pub struct TriggeredPayload;

/// Tells a trade to stop.
#[derive(Clone, Copy, Debug, PartialEq, Eq, Structural)]
pub struct StopPayload;

/// Probes whether a trade can still be reached.
#[derive(Clone, Copy, Debug, PartialEq, Eq, Structural)]
pub struct PingPayload;

} // verus!
