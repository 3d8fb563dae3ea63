use crate::addresses::{DbAddr, TimeSeriesAddr};
use crate::data_source::DataSource;
use crate::decimal::Decimal;
use crate::resolution::ResolutionStrategy;
use crate::setup::{Setup, SetupView, StrategyOrientation};
use crate::strategy::TradingStrategy;
use crate::trade::{Trade, TradeStatus, TradeView};
use uuid::Uuid;
use vstd::prelude::*;

verus! {

/// `uuid::Uuid::new_v4` draws a random identifier. Nothing is claimed of the
/// value it hands back.
pub assume_specification[ uuid::Uuid::new_v4 ]() -> (id: uuid::Uuid)
;

/// The part of a trade that was not given to its builder.
#[derive(Clone, Copy, Debug, PartialEq, Eq, Structural)]
pub enum TradeBuildError {
    MissingSetup,
    MissingQuantity,
    MissingDollarValue,
    MissingSource,
    MissingResolutionStrategy,
    MissingTimeSeries,
    MissingDb,
    MissingTradingStrategy,
}

/// Collects the parts of a trade. Every part but the two flags and the
/// identifier has to be given before the trade can be built.
#[derive(Debug, PartialEq, Eq)]
pub struct TradeBuilder<S: TradingStrategy> {
    pub id: Uuid,
    pub setup: Option<Setup>,
    pub quantity: Option<Decimal>,
    pub dollar_value: Option<Decimal>,
    pub source: Option<DataSource>,
    pub notifications_enabled: bool,
    pub trading_enabled: bool,
    pub resolution_strategy: Option<ResolutionStrategy>,
    pub orientation: Option<StrategyOrientation>,
    pub timeseries_addr: Option<TimeSeriesAddr>,
    pub trading_strategy: Option<S>,
    pub db_addr: Option<DbAddr>,
}

pub struct TradeBuilderView<S> {
    pub id: Uuid,
    pub setup: Option<SetupView>,
    pub quantity: Option<Decimal>,
    pub dollar_value: Option<Decimal>,
    pub source: Option<DataSource>,
    pub notifications_enabled: bool,
    pub trading_enabled: bool,
    pub resolution_strategy: Option<ResolutionStrategy>,
    pub orientation: Option<StrategyOrientation>,
    pub timeseries_addr: Option<TimeSeriesAddr>,
    pub trading_strategy: Option<S>,
    pub db_addr: Option<DbAddr>,
}

impl<S: TradingStrategy> View for TradeBuilder<S> {
    type V = TradeBuilderView<S>;

    open spec fn view(&self) -> TradeBuilderView<S> {
        TradeBuilderView {
            id: self.id,
            setup: match self.setup {
                Some(s) => Some(s@),
                None => None,
            },
            quantity: self.quantity,
            dollar_value: self.dollar_value,
            source: self.source,
            notifications_enabled: self.notifications_enabled,
            trading_enabled: self.trading_enabled,
            resolution_strategy: self.resolution_strategy,
            orientation: self.orientation,
            timeseries_addr: self.timeseries_addr,
            trading_strategy: self.trading_strategy,
            db_addr: self.db_addr,
        }
    }
}

/// The view of a built trade or of the reason why there is none.
pub open spec fn trade_result_view<S: TradingStrategy>(
    r: Result<Trade<S>, TradeBuildError>,
) -> Result<TradeView<S>, TradeBuildError> {
    match r {
        Ok(t) => Ok(t@),
        Err(e) => Err(e),
    }
}

impl<S: TradingStrategy> TradeBuilderView<S> {
    /// A builder to which nothing has been given yet.
    pub open spec fn is_blank(self) -> bool {
        &&& self.setup is None
        &&& self.quantity is None
        &&& self.dollar_value is None
        &&& self.source is None
        &&& !self.notifications_enabled
        &&& !self.trading_enabled
        &&& self.resolution_strategy is None
        &&& self.orientation is None
        &&& self.timeseries_addr is None
        &&& self.trading_strategy is None
        &&& self.db_addr is None
    }

    /// The trade that the parts make up, newly created, or the first part
    /// that is missing, looked for in the order setup, quantity, dollar
    /// value, source, resolution strategy, time series, store, trading
    /// strategy.
    pub open spec fn build(self) -> Result<TradeView<S>, TradeBuildError> {
        if self.setup is None {
            Err(TradeBuildError::MissingSetup)
        } else if self.quantity is None {
            Err(TradeBuildError::MissingQuantity)
        } else if self.dollar_value is None {
            Err(TradeBuildError::MissingDollarValue)
        } else if self.source is None {
            Err(TradeBuildError::MissingSource)
        } else if self.resolution_strategy is None {
            Err(TradeBuildError::MissingResolutionStrategy)
        } else if self.timeseries_addr is None {
            Err(TradeBuildError::MissingTimeSeries)
        } else if self.db_addr is None {
            Err(TradeBuildError::MissingDb)
        } else if self.trading_strategy is None {
            Err(TradeBuildError::MissingTradingStrategy)
        } else {
            Ok(
                TradeView {
                    id: self.id,
                    setup: self.setup->0,
                    quantity: self.quantity->0,
                    dollar_value: self.dollar_value->0,
                    source: self.source->0,
                    notifications_enabled: self.notifications_enabled,
                    trading_enabled: self.trading_enabled,
                    resolution_strategy: self.resolution_strategy->0,
                    trading_strategy: self.trading_strategy->0,
                    timeseries: self.timeseries_addr->0,
                    db_addr: self.db_addr->0,
                    status: TradeStatus::Created,
                },
            )
        }
    }
}

impl<S: TradingStrategy> TradeBuilder<S> {
    /// A builder with a fresh random identifier and nothing else.
    pub fn new() -> (b: TradeBuilder<S>)
        ensures
            b@.is_blank(),
    {
        TradeBuilder {
            id: Uuid::new_v4(),
            setup: None,
            quantity: None,
            dollar_value: None,
            source: None,
            notifications_enabled: false,
            trading_enabled: false,
            resolution_strategy: None,
            orientation: None,
            timeseries_addr: None,
            trading_strategy: None,
            db_addr: None,
        }
    }

    pub fn quantity(self, quantity: Decimal) -> (b: TradeBuilder<S>)
        ensures
            b@ == (TradeBuilderView { quantity: Some(quantity), ..self@ }),
    {
        let mut b = self;
        b.quantity = Some(quantity);
        b
    }

    pub fn dollar_value(self, dollar_value: Decimal) -> (b: TradeBuilder<S>)
        ensures
            b@ == (TradeBuilderView { dollar_value: Some(dollar_value), ..self@ }),
    {
        let mut b = self;
        b.dollar_value = Some(dollar_value);
        b
    }

    pub fn source(self, source: DataSource) -> (b: TradeBuilder<S>)
        ensures
            b@ == (TradeBuilderView { source: Some(source), ..self@ }),
    {
        let mut b = self;
        b.source = Some(source);
        b
    }

    pub fn notifications_enabled(self, notifications_enabled: bool) -> (b: TradeBuilder<S>)
        ensures
            b@ == (TradeBuilderView { notifications_enabled, ..self@ }),
    {
        let mut b = self;
        b.notifications_enabled = notifications_enabled;
        b
    }

    pub fn trading_enabled(self, trading_enabled: bool) -> (b: TradeBuilder<S>)
        ensures
            b@ == (TradeBuilderView { trading_enabled, ..self@ }),
    {
        let mut b = self;
        b.trading_enabled = trading_enabled;
        b
    }

    pub fn resolution_strategy(self, resolution_strategy: ResolutionStrategy) -> (b: TradeBuilder<
        S,
    >)
        ensures
            b@ == (TradeBuilderView { resolution_strategy: Some(resolution_strategy), ..self@ }),
    {
        let mut b = self;
        b.resolution_strategy = Some(resolution_strategy);
        b
    }

    pub fn orientation(self, orientation: StrategyOrientation) -> (b: TradeBuilder<S>)
        ensures
            b@ == (TradeBuilderView { orientation: Some(orientation), ..self@ }),
    {
        let mut b = self;
        b.orientation = Some(orientation);
        b
    }

    pub fn timeseries_addr(self, timeseries: TimeSeriesAddr) -> (b: TradeBuilder<S>)
        ensures
            b@ == (TradeBuilderView { timeseries_addr: Some(timeseries), ..self@ }),
    {
        let mut b = self;
        b.timeseries_addr = Some(timeseries);
        b
    }

    pub fn setup(self, setup: Setup) -> (b: TradeBuilder<S>)
        ensures
            b@ == (TradeBuilderView { setup: Some(setup@), ..self@ }),
    {
        let mut b = self;
        b.setup = Some(setup);
        b
    }

    pub fn db_addr(self, db_addr: DbAddr) -> (b: TradeBuilder<S>)
        ensures
            b@ == (TradeBuilderView { db_addr: Some(db_addr), ..self@ }),
    {
        let mut b = self;
        b.db_addr = Some(db_addr);
        b
    }

    pub fn id(self, id: Uuid) -> (b: TradeBuilder<S>)
        ensures
            b@ == (TradeBuilderView { id, ..self@ }),
    {
        let mut b = self;
        b.id = id;
        b
    }

    pub fn trading_strategy(self, trading_strategy: S) -> (b: TradeBuilder<S>)
        ensures
            b@ == (TradeBuilderView { trading_strategy: Some(trading_strategy), ..self@ }),
    {
        let mut b = self;
        b.trading_strategy = Some(trading_strategy);
        b
    }

    /// The trade, in `Created`, if every required part was given; else the
    /// first part that is missing.
    pub fn build(&self) -> (r: Result<Trade<S>, TradeBuildError>)
        ensures
            trade_result_view(r) == self@.build(),
    {
        let setup = match &self.setup {
            Some(s) => s.duplicate(),
            None => {
                return Err(TradeBuildError::MissingSetup);
            },
        };
        let quantity = match self.quantity {
            Some(q) => q,
            None => {
                return Err(TradeBuildError::MissingQuantity);
            },
        };
        let dollar_value = match self.dollar_value {
            Some(d) => d,
            None => {
                return Err(TradeBuildError::MissingDollarValue);
            },
        };
        let source = match self.source {
            Some(s) => s,
            None => {
                return Err(TradeBuildError::MissingSource);
            },
        };
        let resolution_strategy = match self.resolution_strategy {
            Some(r) => r,
            None => {
                return Err(TradeBuildError::MissingResolutionStrategy);
            },
        };
        let timeseries = match self.timeseries_addr {
            Some(t) => t,
            None => {
                return Err(TradeBuildError::MissingTimeSeries);
            },
        };
        let db_addr = match self.db_addr {
            Some(d) => d,
            None => {
                return Err(TradeBuildError::MissingDb);
            },
        };
        let trading_strategy = match &self.trading_strategy {
            Some(s) => s.duplicate(),
            None => {
                return Err(TradeBuildError::MissingTradingStrategy);
            },
        };
        Ok(
            Trade {
                id: self.id,
                setup,
                quantity,
                dollar_value,
                source,
                notifications_enabled: self.notifications_enabled,
                trading_enabled: self.trading_enabled,
                resolution_strategy,
                trading_strategy,
                timeseries,
                db_addr,
                status: TradeStatus::Created,
            },
        )
    }
}

} // verus!
