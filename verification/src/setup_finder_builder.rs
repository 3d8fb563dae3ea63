use crate::addresses::{DbAddr, TimeSeriesAddr, TradeAddr};
use crate::data_source::DataSource;
use crate::setup_finder::{SetupFinder, SetupFinderBuildError, SetupFinderView};
use crate::strategy::TradingStrategy;
use vstd::prelude::*;
use vstd::slice::slice_to_vec;

verus! {

/// Collects the parts of a setup finder. The strategy, the series, the
/// source and the store have to be given; the three switches are off and no
/// trade is on record unless set otherwise.
#[derive(Debug, PartialEq, Eq)]
pub struct SetupFinderBuilder<S: TradingStrategy> {
    pub strategy: Option<S>,
    pub ts_addr: Option<TimeSeriesAddr>,
    pub source: Option<DataSource>,
    pub db_addr: Option<DbAddr>,
    pub notifications_enabled: bool,
    pub live_trading_enabled: bool,
    pub only_trigger_once: bool,
    pub spawned_trades: Vec<TradeAddr>,
}

pub struct SetupFinderBuilderView<S> {
    pub strategy: Option<S>,
    pub ts_addr: Option<TimeSeriesAddr>,
    pub source: Option<DataSource>,
    pub db_addr: Option<DbAddr>,
    pub notifications_enabled: bool,
    pub live_trading_enabled: bool,
    pub only_trigger_once: bool,
    pub spawned_trades: Seq<TradeAddr>,
}

impl<S: TradingStrategy> View for SetupFinderBuilder<S> {
    type V = SetupFinderBuilderView<S>;

    open spec fn view(&self) -> SetupFinderBuilderView<S> {
        SetupFinderBuilderView {
            strategy: self.strategy,
            ts_addr: self.ts_addr,
            source: self.source,
            db_addr: self.db_addr,
            notifications_enabled: self.notifications_enabled,
            live_trading_enabled: self.live_trading_enabled,
            only_trigger_once: self.only_trigger_once,
            spawned_trades: self.spawned_trades@,
        }
    }
}

/// The view of a built finder or of the reason why there is none.
pub open spec fn finder_result_view<S: TradingStrategy>(
    r: Result<SetupFinder<S>, SetupFinderBuildError>,
) -> Result<SetupFinderView<S>, SetupFinderBuildError> {
    match r {
        Ok(f) => Ok(f@),
        Err(e) => Err(e),
    }
}

impl<S: TradingStrategy> SetupFinderBuilderView<S> {
    /// The finder that the parts make up, not fired yet, or the first part
    /// that is missing, looked for in the order strategy, time series,
    /// source, store.
    pub open spec fn build(self) -> Result<SetupFinderView<S>, SetupFinderBuildError> {
        if self.strategy is None {
            Err(SetupFinderBuildError::MissingStrategy)
        } else if self.ts_addr is None {
            Err(SetupFinderBuildError::MissingTimeSeries)
        } else if self.source is None {
            Err(SetupFinderBuildError::MissingSource)
        } else if self.db_addr is None {
            Err(SetupFinderBuildError::MissingDb)
        } else {
            Ok(
                SetupFinderView {
                    strategy: self.strategy->0,
                    ts_addr: self.ts_addr->0,
                    db_addr: self.db_addr->0,
                    source: self.source->0,
                    notifications_enabled: self.notifications_enabled,
                    live_trading_enabled: self.live_trading_enabled,
                    only_trigger_once: self.only_trigger_once,
                    triggered: false,
                    spawned: self.spawned_trades,
                },
            )
        }
    }
}

impl<S: TradingStrategy> SetupFinderBuilder<S> {
    pub fn new() -> (b: SetupFinderBuilder<S>)
        ensures
            b@ == (SetupFinderBuilderView::<S> {
                strategy: None,
                ts_addr: None,
                source: None,
                db_addr: None,
                notifications_enabled: false,
                live_trading_enabled: false,
                only_trigger_once: false,
                spawned_trades: Seq::empty(),
            }),
    {
        SetupFinderBuilder {
            strategy: None,
            ts_addr: None,
            source: None,
            db_addr: None,
            notifications_enabled: false,
            live_trading_enabled: false,
            only_trigger_once: false,
            spawned_trades: Vec::new(),
        }
    }

    pub fn strategy(self, strategy: S) -> (b: SetupFinderBuilder<S>)
        ensures
            b@ == (SetupFinderBuilderView { strategy: Some(strategy), ..self@ }),
    {
        let mut b = self;
        b.strategy = Some(strategy);
        b
    }

    pub fn source(self, source: DataSource) -> (b: SetupFinderBuilder<S>)
        ensures
            b@ == (SetupFinderBuilderView { source: Some(source), ..self@ }),
    {
        let mut b = self;
        b.source = Some(source);
        b
    }

    pub fn ts_addr(self, ts_addr: TimeSeriesAddr) -> (b: SetupFinderBuilder<S>)
        ensures
            b@ == (SetupFinderBuilderView { ts_addr: Some(ts_addr), ..self@ }),
    {
        let mut b = self;
        b.ts_addr = Some(ts_addr);
        b
    }

    pub fn db_addr(self, db_addr: DbAddr) -> (b: SetupFinderBuilder<S>)
        ensures
            b@ == (SetupFinderBuilderView { db_addr: Some(db_addr), ..self@ }),
    {
        let mut b = self;
        b.db_addr = Some(db_addr);
        b
    }

    pub fn notifications_enabled(self, enabled: bool) -> (b: SetupFinderBuilder<S>)
        ensures
            b@ == (SetupFinderBuilderView { notifications_enabled: enabled, ..self@ }),
    {
        let mut b = self;
        b.notifications_enabled = enabled;
        b
    }

    pub fn live_trading_enabled(self, enabled: bool) -> (b: SetupFinderBuilder<S>)
        ensures
            b@ == (SetupFinderBuilderView { live_trading_enabled: enabled, ..self@ }),
    {
        let mut b = self;
        b.live_trading_enabled = enabled;
        b
    }

    pub fn only_trigger_once(self, enabled: bool) -> (b: SetupFinderBuilder<S>)
        ensures
            b@ == (SetupFinderBuilderView { only_trigger_once: enabled, ..self@ }),
    {
        let mut b = self;
        b.only_trigger_once = enabled;
        b
    }

    pub fn spawned_trades(self, trades: &[TradeAddr]) -> (b: SetupFinderBuilder<S>)
        ensures
            b@ == (SetupFinderBuilderView { spawned_trades: trades@, ..self@ }),
    {
        let mut b = self;
        b.spawned_trades = slice_to_vec(trades);
        b
    }

    /// The finder, if every required part was given; else the first part
    /// that is missing.
    pub fn build(self) -> (r: Result<SetupFinder<S>, SetupFinderBuildError>)
        ensures
            finder_result_view(r) == self@.build(),
    {
        let strategy = match self.strategy {
            Some(s) => s,
            None => {
                return Err(SetupFinderBuildError::MissingStrategy);
            },
        };
        let ts = match self.ts_addr {
            Some(t) => t,
            None => {
                return Err(SetupFinderBuildError::MissingTimeSeries);
            },
        };
        let source = match self.source {
            Some(s) => s,
            None => {
                return Err(SetupFinderBuildError::MissingSource);
            },
        };
        let db_addr = match self.db_addr {
            Some(d) => d,
            None => {
                return Err(SetupFinderBuildError::MissingDb);
            },
        };
        SetupFinder::new(
            strategy,
            ts,
            db_addr,
            self.notifications_enabled,
            self.live_trading_enabled,
            self.only_trigger_once,
            self.spawned_trades.as_slice(),
            source,
        )
    }
}

} // verus!
