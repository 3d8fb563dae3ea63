use vstd::prelude::*;

verus! {

/// Names one subscriber of a time series. The series keeps no more than this
/// name: whoever runs the subscriber decides how long it lives.
#[derive(Clone, Copy, Debug, PartialEq, Eq, Hash, Structural)]
pub struct ObserverId(pub u64);

/// Names a running time series.
#[derive(Clone, Copy, Debug, PartialEq, Eq, Hash, Structural)]
pub struct TimeSeriesAddr(pub u64);

/// Names the store that trade records are sent to.
#[derive(Clone, Copy, Debug, PartialEq, Eq, Hash, Structural)]
pub struct DbAddr(pub u64);

/// Names the client that passes closed candles on from a feed.
#[derive(Clone, Copy, Debug, PartialEq, Eq, Hash, Structural)]
pub struct WebsocketClientAddr(pub u64);

/// Names a running trade.
#[derive(Clone, Copy, Debug, PartialEq, Eq, Hash, Structural)]
pub struct TradeAddr(pub u64);

/// Names a running setup finder.
#[derive(Clone, Copy, Debug, PartialEq, Eq, Hash, Structural)]
pub struct SetupFinderAddr(pub u64);

impl TradeAddr {
    /// The name under which the trade receives candle notifications.
    pub fn recipient(&self) -> (o: ObserverId)
        ensures
            o.0 == self.0,
    {
        ObserverId(self.0)
    }
}

impl SetupFinderAddr {
    /// The name under which the setup finder receives candle notifications.
    pub fn recipient(&self) -> (o: ObserverId)
        ensures
            o.0 == self.0,
    {
        ObserverId(self.0)
    }
}

} // verus!
