use crate::addresses::{DbAddr, TimeSeriesAddr};
use crate::candle::{candle_views, CandleView};
use crate::data_source::DataSource;
use crate::database::{CreateDBTradePayload, DBTrade, DBTradeView, FinishDBTradePayload};
use crate::decimal::Decimal;
use crate::interval::Interval;
use crate::payloads::{
    CandleAddedPayload, LatestCandleResponse, PingPayload, RequestLatestCandlesPayload,
    StopPayload,
};
use crate::resolution::{IsResolutionStrategy, ResolutionError, ResolutionStrategy};
use crate::setup::{Setup, SetupView};
use crate::strategy::TradingStrategy;
use uuid::Uuid;
use vstd::prelude::*;
use vstd::slice::slice_subrange;

verus! {

/// Milliseconds added to the time a position was held before it is divided
/// into bars, so that an exit a little short of a full bar still counts it.
pub const EXIT_GRACE_MILLIS: i64 = 10_000;

/// The share of the entered quantity, in hundredths, that is sold at exit.
/// Selling a little less than was bought allows for the balance having
/// drifted between the wallet query and the entry.
pub const EXIT_QUANTITY_PERCENT: u8 = 99;

/// Where a trade stands in its life. It moves forward only: from `Created`
/// to `Entered` when it is started, from `Entered` to `Exited` when an exit
/// test is met or it is told to stop.
#[derive(Clone, Copy, Debug, PartialEq, Eq, Structural)]
pub enum TradeStatus {
    Created,
    Entered,
    Exited,
}

/// Why a trade could not act on what it was handed.
#[derive(Clone, Copy, Debug, PartialEq, Eq, Structural)]
pub enum TradeError {
    /// `started` was called on a trade that is not in `Created`.
    AlreadyStarted,
    /// The series answered with fewer candles than the exit policy reads.
    InsufficientCandles,
    /// The exit policy could not answer.
    Resolution(ResolutionError),
}

/// The number of whole bars of `interval` between entry and exit, both in
/// milliseconds since the epoch, after the grace time has been added: the
/// time held divided by the length of a bar, rounded down.
pub open spec fn spec_bars_in_trade(entered_at: i64, exited_at: i64, interval: Interval) -> int {
    let held = exited_at - entered_at + EXIT_GRACE_MILLIS;
    match interval {
        Interval::Minute1 => held / 60_000,
        Interval::Minute5 => held / 300_000,
        Interval::Minute15 => held / 900_000,
        Interval::Minute30 => held / 1_800_000,
        Interval::Hour1 => held / 3_600_000,
        Interval::Hour4 => held / 14_400_000,
        Interval::Hour12 => held / 43_200_000,
        Interval::Day1 => held / 86_400_000,
        Interval::Day5 => held / 432_000_000,
        Interval::Week1 => held / 604_800_000,
    }
}

/// The number of bars in a trade is the time held, grace added, divided by
/// the length of the interval and rounded down.
pub proof fn law_bars_in_trade_formula(entered_at: i64, exited_at: i64, interval: Interval)
    ensures
        spec_bars_in_trade(entered_at, exited_at, interval) == (exited_at - entered_at
            + EXIT_GRACE_MILLIS) / (interval.spec_seconds() * 1000),
{
}

/// For a positive divisor, rounding the quotient of a negative number down
/// is rounding the quotient of its magnitude up.
proof fn lemma_floor_of_negative(m: int, d: int)
    requires
        m > 0,
        d > 0,
    ensures
        (-m) / d == -((m + d - 1) / d),
{
    let q = (m + d - 1) / d;
    let r = (m + d - 1) % d;
    vstd::arithmetic::div_mod::lemma_fundamental_div_mod(m + d - 1, d);
    vstd::arithmetic::div_mod::lemma_mod_bound(m + d - 1, d);
    // m + d - 1 == d * q + r with 0 <= r < d, so -m == d * (-q) + (d - 1 - r).
    assert(-m == d * (-q) + (d - 1 - r)) by (nonlinear_arith)
        requires
            m + d - 1 == d * q + r,
    ;
    vstd::arithmetic::div_mod::lemma_fundamental_div_mod_converse(-m, d, -q, d - 1 - r);
}

/// The number of bars a position was held.
pub fn get_bars_in_trade(entered_at: &i64, exited_at: &i64, interval: &Interval) -> (bars: i64)
    ensures
        bars == spec_bars_in_trade(*entered_at, *exited_at, *interval),
{
    let span: i128 = (*exited_at as i128) - (*entered_at as i128) + (EXIT_GRACE_MILLIS as i128);
    let bar: i128 = (interval.seconds() as i128) * 1000;
    proof {
        law_bars_in_trade_formula(*entered_at, *exited_at, *interval);
    }
    let bars: i128 = if span >= 0 {
        span / bar
    } else {
        proof {
            lemma_floor_of_negative(-(span as int), bar as int);
        }
        -((-span + bar - 1) / bar)
    };
    proof {
        let b = bar as int;
        let magnitude = if span >= 0 {
            span as int
        } else {
            -span + b - 1
        };
        let limit = 0x4_0000_0000_0000_0000int;
        assert(60_000 <= b <= 604_800_000);
        assert(0 <= magnitude <= limit);
        vstd::arithmetic::div_mod::lemma_div_pos_is_pos(magnitude, b);
        vstd::arithmetic::div_mod::lemma_div_is_ordered_by_denominator(magnitude, 60_000, b);
        vstd::arithmetic::div_mod::lemma_div_is_ordered(magnitude, limit, 60_000);
        assert(limit / 60_000 < 0x7fff_ffff_ffff_ffff);
    }
    bars as i64
}

/// The order that opens a position: buy `dollar_value` worth of `symbol`.
#[derive(Debug, PartialEq, Eq)]
pub struct EnterTradeOrder {
    pub symbol: String,
    pub dollar_value: Decimal,
}

/// The order that closes a position: sell `quantity` of `symbol`.
#[derive(Debug, PartialEq, Eq)]
pub struct ExitTradeOrder {
    pub symbol: String,
    pub quantity: Decimal,
}

/// What is to be done when a trade starts: submit `order`, and whatever
/// comes of that, send `record` to the store.
#[derive(Debug, PartialEq, Eq)]
pub struct TradeStart {
    pub order: EnterTradeOrder,
    pub record: CreateDBTradePayload,
}

/// What is to be done when a trade ends: submit `order`, and whatever comes
/// of that, send `record` to the store and `stop` to the trade itself.
#[derive(Debug, PartialEq, Eq)]
pub struct TradeExit {
    pub order: ExitTradeOrder,
    pub record: FinishDBTradePayload,
    pub stop: StopPayload,
}

pub struct TradeStartView {
    pub symbol: Seq<char>,
    pub dollar_value: Decimal,
    pub record: DBTradeView,
}

pub struct TradeExitView {
    pub symbol: Seq<char>,
    pub quantity: Decimal,
    pub record: FinishDBTradePayload,
}

impl View for TradeStart {
    type V = TradeStartView;

    open spec fn view(&self) -> TradeStartView {
        TradeStartView {
            symbol: self.order.symbol@,
            dollar_value: self.order.dollar_value,
            record: self.record.db_trade@,
        }
    }
}

impl View for TradeExit {
    type V = TradeExitView;

    open spec fn view(&self) -> TradeExitView {
        TradeExitView {
            symbol: self.order.symbol@,
            quantity: self.order.quantity,
            record: self.record,
        }
    }
}

/// One open position and all that decides its exit.
///
/// A trade is started once, is shown every candle added to its series while
/// it is entered, and ends when its exit policy says so.
#[derive(Debug, PartialEq, Eq)]
pub struct Trade<S: TradingStrategy> {
    pub id: Uuid,
    pub setup: Setup,
    pub quantity: Decimal,
    pub dollar_value: Decimal,
    pub source: DataSource,
    pub notifications_enabled: bool,
    pub trading_enabled: bool,
    pub resolution_strategy: ResolutionStrategy,
    pub trading_strategy: S,
    pub timeseries: TimeSeriesAddr,
    pub db_addr: DbAddr,
    pub status: TradeStatus,
}

pub struct TradeView<S> {
    pub id: Uuid,
    pub setup: SetupView,
    pub quantity: Decimal,
    pub dollar_value: Decimal,
    pub source: DataSource,
    pub notifications_enabled: bool,
    pub trading_enabled: bool,
    pub resolution_strategy: ResolutionStrategy,
    pub trading_strategy: S,
    pub timeseries: TimeSeriesAddr,
    pub db_addr: DbAddr,
    pub status: TradeStatus,
}

impl<S: TradingStrategy> View for Trade<S> {
    type V = TradeView<S>;

    open spec fn view(&self) -> TradeView<S> {
        TradeView {
            id: self.id,
            setup: self.setup@,
            quantity: self.quantity,
            dollar_value: self.dollar_value,
            source: self.source,
            notifications_enabled: self.notifications_enabled,
            trading_enabled: self.trading_enabled,
            resolution_strategy: self.resolution_strategy,
            trading_strategy: self.trading_strategy,
            timeseries: self.timeseries,
            db_addr: self.db_addr,
            status: self.status,
        }
    }
}

/// The view of the outcome of a start.
pub open spec fn start_view(r: Result<TradeStart, TradeError>) -> Result<
    TradeStartView,
    TradeError,
> {
    match r {
        Ok(s) => Ok(s@),
        Err(e) => Err(e),
    }
}

/// The view of the outcome of an exit evaluation.
pub open spec fn exit_view(r: Result<Option<TradeExit>, TradeError>) -> Result<
    Option<TradeExitView>,
    TradeError,
> {
    match r {
        Ok(Some(x)) => Ok(Some(x@)),
        Ok(None) => Ok(None),
        Err(e) => Err(e),
    }
}

impl<S: TradingStrategy> TradeView<S> {
    /// The record that is stored when the position is entered: entered at
    /// the start of the setup's candle and at its close, nothing known of the
    /// exit, no fee, no comment.
    pub open spec fn entry_record(self) -> DBTradeView {
        DBTradeView {
            id: self.id,
            symbol: self.setup.symbol,
            interval: self.setup.interval.spec_label(),
            orientation: self.setup.orientation.spec_label(),
            trading_strategy: self.trading_strategy.spec_name(),
            resolution_strategy: self.resolution_strategy.spec_label(),
            data_source: self.source.spec_label(),
            entered_at: self.setup.candle.timestamp,
            exited_at: None,
            bars_in_trade: None,
            entry_price: self.setup.candle.close,
            exit_price: None,
            quantity: self.quantity,
            dollar_value: self.dollar_value,
            entry_fee: Decimal { raw: 0 },
            exit_fee: None,
            comments: None,
        }
    }

    /// Starting the trade: what is to be done, or why it cannot start.
    pub open spec fn start(self) -> Result<TradeStartView, TradeError> {
        if self.status != TradeStatus::Created {
            Err(TradeError::AlreadyStarted)
        } else {
            match self.resolution_strategy.with_initial_values(self.setup) {
                Err(e) => Err(TradeError::Resolution(e)),
                Ok(_) => Ok(
                    TradeStartView {
                        symbol: self.setup.symbol,
                        dollar_value: self.dollar_value,
                        record: self.entry_record(),
                    },
                ),
            }
        }
    }

    /// The trade after it has been asked to start.
    pub open spec fn after_start(self) -> TradeView<S> {
        if self.start() is Ok {
            TradeView {
                resolution_strategy: self.resolution_strategy.with_initial_values(
                    self.setup,
                )->Ok_0,
                status: TradeStatus::Entered,
                ..self
            }
        } else {
            self
        }
    }

    /// The number of trailing candles that an exit evaluation reads.
    pub open spec fn candles_needed(self) -> nat {
        let tp = self.resolution_strategy.spec_n_candles_take_profit();
        let sl = self.resolution_strategy.spec_n_candles_stop_loss();
        if tp >= sl {
            tp
        } else {
            sl
        }
    }

    /// Whether one of the two exit tests is met on `window`, each held
    /// against its own number of trailing candles.
    pub open spec fn exit_reached(self, window: Seq<CandleView>) -> Result<bool, TradeError> {
        let tp = self.resolution_strategy.spec_n_candles_take_profit();
        let sl = self.resolution_strategy.spec_n_candles_stop_loss();
        let end = window.len() as int;
        if end < self.candles_needed() {
            Err(TradeError::InsufficientCandles)
        } else {
            match self.resolution_strategy.spec_take_profit_reached(
                self.setup.orientation,
                window.subrange(end - tp, end),
            ) {
                Err(e) => Err(TradeError::Resolution(e)),
                Ok(take_profit) => match self.resolution_strategy.spec_stop_loss_reached(
                    self.setup.orientation,
                    window.subrange(end - sl, end),
                ) {
                    Err(e) => Err(TradeError::Resolution(e)),
                    Ok(stop_loss) => Ok(take_profit || stop_loss),
                },
            }
        }
    }

    /// What is to be done when the trade exits on `candle`.
    pub open spec fn exit_on(self, candle: CandleView) -> TradeExitView {
        TradeExitView {
            symbol: self.setup.symbol,
            quantity: self.quantity.spec_percent(EXIT_QUANTITY_PERCENT),
            record: FinishDBTradePayload {
                id: self.id,
                exited_at: candle.timestamp,
                bars_in_trade: spec_bars_in_trade(
                    self.setup.candle.timestamp,
                    candle.timestamp,
                    self.setup.interval,
                ) as i64,
                exit_price: candle.close,
            },
        }
    }

    /// Being shown that `candle` was added, with `window` the latest candles
    /// of the series: the exit to perform, if any. A trade that is not
    /// entered does nothing.
    pub open spec fn on_candle(self, candle: CandleView, window: Seq<CandleView>) -> Result<
        Option<TradeExitView>,
        TradeError,
    > {
        if self.status != TradeStatus::Entered {
            Ok(None)
        } else {
            match self.exit_reached(window) {
                Err(e) => Err(e),
                Ok(false) => Ok(None),
                Ok(true) => Ok(Some(self.exit_on(candle))),
            }
        }
    }

    /// The trade after it has been shown `candle`.
    pub open spec fn after_candle(self, candle: CandleView, window: Seq<CandleView>) -> TradeView<
        S,
    > {
        if self.on_candle(candle, window) matches Ok(Some(_)) {
            TradeView { status: TradeStatus::Exited, ..self }
        } else {
            self
        }
    }
}

impl<S: TradingStrategy> Trade<S> {
    /// Starts the trade: sets the initial values of the exit policy from the
    /// setup and enters the position. Hands back the entry order and the
    /// record to store; the record is to be stored whether or not the order
    /// goes through.
    ///
    /// Fails, and changes nothing, if the trade was started before or the
    /// exit policy refuses the setup.
    pub fn started(&mut self) -> (r: Result<TradeStart, TradeError>)
        ensures
            start_view(r) == old(self)@.start(),
            final(self)@ == old(self)@.after_start(),
    {
        match self.status {
            TradeStatus::Created => {},
            _ => {
                return Err(TradeError::AlreadyStarted);
            },
        }
        let db_trade = DBTrade {
            id: self.id,
            symbol: self.setup.symbol.clone(),
            interval: self.setup.interval.label(),
            orientation: self.setup.orientation.label(),
            trading_strategy: self.trading_strategy.name(),
            resolution_strategy: self.resolution_strategy.label(),
            data_source: self.source.label(),
            entered_at: self.setup.candle.timestamp,
            exited_at: None,
            bars_in_trade: None,
            entry_price: self.setup.candle.close,
            exit_price: None,
            quantity: self.quantity,
            dollar_value: self.dollar_value,
            entry_fee: Decimal { raw: 0 },
            exit_fee: None,
            comments: None,
        };
        match self.resolution_strategy.set_initial_values(&self.setup) {
            Ok(()) => {},
            Err(e) => {
                return Err(TradeError::Resolution(e));
            },
        }
        self.status = TradeStatus::Entered;
        Ok(
            TradeStart {
                order: EnterTradeOrder {
                    symbol: self.setup.symbol.clone(),
                    dollar_value: self.dollar_value,
                },
                record: CreateDBTradePayload { db_trade },
            },
        )
    }

    /// The request to put to the series before each exit evaluation.
    pub fn candles_request(&self) -> (request: RequestLatestCandlesPayload)
        ensures
            request.n == self@.candles_needed(),
    {
        let tp: usize = self.resolution_strategy.n_candles_take_profit();
        let sl: usize = self.resolution_strategy.n_candles_stop_loss();
        RequestLatestCandlesPayload { n: if tp >= sl { tp } else { sl } }
    }

    /// Evaluates the exit policy after the candle in `msg` was added to the
    /// series; `response` is the answer of the series to `candles_request`.
    ///
    /// Where take-profit or stop-loss is met, the trade moves to `Exited`
    /// and hands back the exit order for 99% of the entered quantity, the
    /// record of the exit and its own stop message. Otherwise, and on every
    /// failure, it stays as it was.
    pub fn handle(&mut self, msg: &CandleAddedPayload, response: &LatestCandleResponse) -> (r:
        Result<Option<TradeExit>, TradeError>)
        ensures
            exit_view(r) == old(self)@.on_candle(msg.candle@, response@.candles),
            final(self)@ == old(self)@.after_candle(msg.candle@, response@.candles),
    {
        match self.status {
            TradeStatus::Entered => {},
            _ => {
                return Ok(None);
            },
        }
        let tp: usize = self.resolution_strategy.n_candles_take_profit();
        let sl: usize = self.resolution_strategy.n_candles_stop_loss();
        let end: usize = response.candles.len();
        if end < tp || end < sl {
            return Err(TradeError::InsufficientCandles);
        }
        let window = response.candles.as_slice();
        let tp_candles = slice_subrange(window, end - tp, end);
        assert(candle_views(tp_candles@) =~= response@.candles.subrange(end - tp, end as int));
        let take_profit_reached = match self.resolution_strategy.take_profit_reached(
            &self.setup.orientation,
            tp_candles,
        ) {
            Ok(b) => b,
            Err(e) => {
                return Err(TradeError::Resolution(e));
            },
        };
        let sl_candles = slice_subrange(window, end - sl, end);
        assert(candle_views(sl_candles@) =~= response@.candles.subrange(end - sl, end as int));
        let stop_loss_reached = match self.resolution_strategy.stop_loss_reached(
            &self.setup.orientation,
            sl_candles,
        ) {
            Ok(b) => b,
            Err(e) => {
                return Err(TradeError::Resolution(e));
            },
        };
        if !(take_profit_reached || stop_loss_reached) {
            return Ok(None);
        }
        let quantity = self.quantity.percent(EXIT_QUANTITY_PERCENT);
        let exited_at: i64 = msg.candle.timestamp;
        let bars_in_trade: i64 = get_bars_in_trade(
            &self.setup.candle.timestamp,
            &exited_at,
            &self.setup.interval,
        );
        self.status = TradeStatus::Exited;
        Ok(
            Some(
                TradeExit {
                    order: ExitTradeOrder { symbol: self.setup.symbol.clone(), quantity },
                    record: FinishDBTradePayload {
                        id: self.id,
                        exited_at,
                        bars_in_trade,
                        exit_price: msg.candle.close,
                    },
                    stop: StopPayload,
                },
            ),
        )
    }

    /// Stops the trade: it moves to `Exited` wherever it stood.
    pub fn handle_stop(&mut self, _msg: StopPayload)
        ensures
            final(self)@ == (TradeView { status: TradeStatus::Exited, ..old(self)@ }),
    {
        self.status = TradeStatus::Exited;
    }

    /// Answers a liveness probe: a trade can be reached until it has exited.
    pub fn handle_ping(&self, _msg: PingPayload) -> (alive: bool)
        ensures
            alive == (self.status != TradeStatus::Exited),
    {
        match self.status {
            TradeStatus::Exited => false,
            _ => true,
        }
    }
}

/// One thing that happens to a trade.
pub enum TradeEvent {
    /// The trade is asked to start.
    Started,
    /// A candle was added to the series; `window` is the answer of the
    /// series to the request for the latest candles.
    CandleAdded { candle: CandleView, window: Seq<CandleView> },
    /// The trade is told to stop.
    Stopped,
}

impl TradeStatus {
    /// How far along its life a trade in this status is.
    pub open spec fn stage(self) -> nat {
        match self {
            TradeStatus::Created => 0,
            TradeStatus::Entered => 1,
            TradeStatus::Exited => 2,
        }
    }
}

impl<S: TradingStrategy> TradeView<S> {
    pub open spec fn after_event(self, event: TradeEvent) -> TradeView<S> {
        match event {
            TradeEvent::Started => self.after_start(),
            TradeEvent::CandleAdded { candle, window } => self.after_candle(candle, window),
            TradeEvent::Stopped => TradeView { status: TradeStatus::Exited, ..self },
        }
    }

    /// The trade after `events` have happened to it in turn.
    pub open spec fn run(self, events: Seq<TradeEvent>) -> TradeView<S>
        decreases events.len(),
    {
        if events.len() == 0 {
            self
        } else {
            self.run(events.drop_last()).after_event(events.last())
        }
    }
}

/// Whatever happens to a trade, it keeps its status or moves forward, by one
/// step unless it is stopped: it is entered only by being started while
/// created, and exits only from being entered or by being stopped. What it
/// trades, and how much of it, never changes.
pub proof fn law_trade_moves_forward<S: TradingStrategy>(trade: TradeView<S>, event: TradeEvent)
    ensures
        trade.after_event(event).status.stage() >= trade.status.stage(),
        !(event is Stopped) ==> trade.after_event(event).status.stage() <= trade.status.stage()
            + 1,
        trade.after_event(event).status == TradeStatus::Entered && trade.status
            != TradeStatus::Entered ==> event is Started && trade.status == TradeStatus::Created,
        trade.after_event(event).id == trade.id,
        trade.after_event(event).setup == trade.setup,
        trade.after_event(event).quantity == trade.quantity,
        trade.after_event(event).dollar_value == trade.dollar_value,
{
}

/// A trade that has exited stays exited and unchanged, whatever happens to
/// it afterwards.
pub proof fn law_exited_is_final<S: TradingStrategy>(trade: TradeView<S>, events: Seq<TradeEvent>)
    requires
        trade.status == TradeStatus::Exited,
    ensures
        trade.run(events) == trade,
    decreases events.len(),
{
    if events.len() > 0 {
        law_exited_is_final(trade, events.drop_last());
    }
}

/// A trade enters its position at most once: once it has been entered, no
/// later start succeeds.
pub proof fn law_trade_starts_once<S: TradingStrategy>(trade: TradeView<S>, events: Seq<TradeEvent>)
    requires
        trade.status != TradeStatus::Created,
    ensures
        trade.run(events).status != TradeStatus::Created,
        trade.run(events).start() == Err::<TradeStartView, TradeError>(TradeError::AlreadyStarted),
    decreases events.len(),
{
    if events.len() > 0 {
        law_trade_starts_once(trade, events.drop_last());
        law_trade_moves_forward(trade.run(events.drop_last()), events.last());
    }
}

} // verus!
