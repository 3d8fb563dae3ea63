use crate::addresses::{DbAddr, SetupFinderAddr, TimeSeriesAddr, TradeAddr};
use crate::data_source::{DataSource, Wallet};
use crate::decimal::Decimal;
use crate::candle::CandleView;
use crate::payloads::{
    CandleAddedPayload, LatestCandleResponse, LatestCandleResponseView,
    RequestLatestCandlesPayload, TSSubscribePayload, TriggeredPayload,
};
use crate::setup::{Setup, SetupBuilderView, SetupError, SetupView};
use crate::strategy::TradingStrategy;
use crate::trade::{Trade, TradeStatus, TradeView};
use crate::trade_builder::TradeBuilder;
use vstd::prelude::*;
use vstd::slice::slice_to_vec;

verus! {

/// Tells a setup finder the address of the trade it has caused to be started.
#[derive(Clone, Copy, Debug, PartialEq, Eq, Structural)]
pub struct TradeSpawnedMsg {
    pub addr: TradeAddr,
}

/// What came of showing a setup finder the latest candles.
#[derive(Debug, PartialEq, Eq)]
pub enum SetupOutcome {
    /// The finder fires once only and has fired before.
    Spent,
    /// The series answered with fewer candles than the strategy reads.
    InsufficientCandles,
    /// The strategy reports no setup.
    NoSetup,
    /// The strategy reported a setup of which a part is missing.
    Rejected(SetupError),
    /// A setup was found while a trade of this finder is still live: no
    /// trade is started and nobody is notified.
    AlreadyInTrade(Setup),
    /// A setup was found. A trade is to be started on it if `open_trade`
    /// holds, and it is to be announced if `notify` holds.
    Found { setup: Setup, open_trade: bool, notify: bool },
}

pub enum SetupOutcomeView {
    Spent,
    InsufficientCandles,
    NoSetup,
    Rejected(SetupError),
    AlreadyInTrade(SetupView),
    Found { setup: SetupView, open_trade: bool, notify: bool },
}

impl View for SetupOutcome {
    type V = SetupOutcomeView;

    open spec fn view(&self) -> SetupOutcomeView {
        match self {
            SetupOutcome::Spent => SetupOutcomeView::Spent,
            SetupOutcome::InsufficientCandles => SetupOutcomeView::InsufficientCandles,
            SetupOutcome::NoSetup => SetupOutcomeView::NoSetup,
            SetupOutcome::Rejected(e) => SetupOutcomeView::Rejected(*e),
            SetupOutcome::AlreadyInTrade(s) => SetupOutcomeView::AlreadyInTrade(s@),
            SetupOutcome::Found { setup, open_trade, notify } => SetupOutcomeView::Found {
                setup: setup@,
                open_trade: *open_trade,
                notify: *notify,
            },
        }
    }
}

impl SetupOutcomeView {
    /// Whether a setup was built: the finder has fired.
    pub open spec fn fired(self) -> bool {
        self is AlreadyInTrade || self is Found
    }

    /// Whether a trade is to be started.
    pub open spec fn opens_trade(self) -> bool {
        self matches SetupOutcomeView::Found { open_trade, .. } && open_trade
    }

    /// Whether the setup is to be announced.
    pub open spec fn notifies(self) -> bool {
        self matches SetupOutcomeView::Found { notify, .. } && notify
    }
}

/// Why no trade could be made from a setup.
#[derive(Clone, Copy, Debug, PartialEq, Eq, Structural)]
pub enum SpawnError {
    /// No quantity can be computed: the price is not positive, or the
    /// quantity is too large to be held.
    Unsizable,
}

/// Those of `addrs` that answered the liveness probe, in their order:
/// `addrs[i]` is kept if `reachable[i]` exists and holds.
pub open spec fn still_reachable(addrs: Seq<TradeAddr>, reachable: Seq<bool>) -> Seq<TradeAddr>
    decreases addrs.len(),
{
    if addrs.len() == 0 {
        Seq::empty()
    } else {
        let before = still_reachable(addrs.drop_last(), reachable);
        let i = addrs.len() - 1;
        if i < reachable.len() && reachable[i] {
            before.push(addrs.last())
        } else {
            before
        }
    }
}

/// Watches one series with one strategy. On every candle added it asks the
/// strategy whether there is a setup, and decides what follows from one: a
/// trade, an announcement, both or neither.
#[derive(Debug, PartialEq, Eq)]
pub struct SetupFinder<S: TradingStrategy> {
    pub strategy: S,
    pub ts_addr: TimeSeriesAddr,
    pub db_addr: DbAddr,
    pub source: DataSource,
    pub notifications_enabled: bool,
    pub live_trading_enabled: bool,
    pub only_trigger_once: bool,
    pub triggered: bool,
    pub spawned_trade_addrs: Vec<TradeAddr>,
}

pub struct SetupFinderView<S> {
    pub strategy: S,
    pub ts_addr: TimeSeriesAddr,
    pub db_addr: DbAddr,
    pub source: DataSource,
    pub notifications_enabled: bool,
    pub live_trading_enabled: bool,
    pub only_trigger_once: bool,
    pub triggered: bool,
    pub spawned: Seq<TradeAddr>,
}

impl<S: TradingStrategy> View for SetupFinder<S> {
    type V = SetupFinderView<S>;

    open spec fn view(&self) -> SetupFinderView<S> {
        SetupFinderView {
            strategy: self.strategy,
            ts_addr: self.ts_addr,
            db_addr: self.db_addr,
            source: self.source,
            notifications_enabled: self.notifications_enabled,
            live_trading_enabled: self.live_trading_enabled,
            only_trigger_once: self.only_trigger_once,
            triggered: self.triggered,
            spawned: self.spawned_trade_addrs@,
        }
    }
}

/// One thing that happens to a setup finder.
pub enum SetupFinderEvent {
    /// A candle was added to the series. `reachable` is the outcome of the
    /// liveness probe of each spawned trade, `response` the answer of the
    /// series to the request for the latest candles.
    CandleAdded { reachable: Seq<bool>, response: LatestCandleResponseView },
    /// The trade that the finder asked for is running at this address.
    TradeSpawned(TradeAddr),
}

impl<S: TradingStrategy> SetupFinderView<S> {
    /// A finder that fires once only and has fired.
    pub open spec fn spent(self) -> bool {
        self.only_trigger_once && self.triggered
    }

    /// The request that follows a notification: none from a spent finder,
    /// else one for as many candles as the strategy reads.
    pub open spec fn request(self) -> Option<RequestLatestCandlesPayload> {
        if self.spent() {
            None
        } else {
            Some(
                RequestLatestCandlesPayload {
                    n: self.strategy.spec_candles_needed_for_setup() as usize,
                },
            )
        }
    }

    /// The finder after a notification has come in: a spent finder stays as
    /// it is, any other drops the trades that can no longer be reached.
    pub open spec fn pruned(self, reachable: Seq<bool>) -> SetupFinderView<S> {
        if self.spent() {
            self
        } else {
            SetupFinderView { spawned: still_reachable(self.spawned, reachable), ..self }
        }
    }

    /// What comes of being shown `response`.
    pub open spec fn evaluate(self, response: LatestCandleResponseView) -> SetupOutcomeView {
        if self.spent() {
            SetupOutcomeView::Spent
        } else if response.candles.len() < self.strategy.spec_candles_needed_for_setup() {
            SetupOutcomeView::InsufficientCandles
        } else {
            match self.strategy.signal(response.candles) {
                None => SetupOutcomeView::NoSetup,
                Some(report) => {
                    let parts = SetupBuilderView {
                        symbol: Some(response.symbol),
                        interval: Some(response.interval),
                        ..report
                    };
                    match parts.build() {
                        Err(e) => SetupOutcomeView::Rejected(e),
                        Ok(setup) => if self.spawned.len() > 0 {
                            SetupOutcomeView::AlreadyInTrade(setup)
                        } else {
                            SetupOutcomeView::Found {
                                setup,
                                open_trade: self.live_trading_enabled,
                                notify: self.notifications_enabled,
                            }
                        },
                    }
                },
            }
        }
    }

    /// The finder after it has been shown `response`: it has fired if a
    /// setup was built, and is unchanged otherwise.
    pub open spec fn after_evaluate(self, response: LatestCandleResponseView) -> SetupFinderView<
        S,
    > {
        if self.evaluate(response).fired() {
            SetupFinderView { triggered: true, ..self }
        } else {
            self
        }
    }

    /// What comes of one whole notification: the probe results are taken in
    /// first, the answer of the series second.
    pub open spec fn outcome(
        self,
        reachable: Seq<bool>,
        response: LatestCandleResponseView,
    ) -> SetupOutcomeView {
        self.pruned(reachable).evaluate(response)
    }

    /// The finder after one whole notification.
    pub open spec fn after_notification(
        self,
        reachable: Seq<bool>,
        response: LatestCandleResponseView,
    ) -> SetupFinderView<S> {
        self.pruned(reachable).after_evaluate(response)
    }

    /// The finder after the trade it asked for has been reported running.
    pub open spec fn trade_spawned(self, addr: TradeAddr) -> SetupFinderView<S> {
        SetupFinderView { spawned: self.spawned.push(addr), ..self }
    }

    /// The trade that is started on `setup` with the given funds: half of
    /// the available balance is put in, at the quantity this buys at `price`.
    pub open spec fn sized_trade(
        self,
        setup: SetupView,
        balance: Decimal,
        price: Decimal,
        id: uuid::Uuid,
    ) -> Result<TradeView<S>, SpawnError> {
        let dollar_value = Decimal { raw: crate::decimal::trunc_div(balance.raw as int, 2) as i64 };
        match dollar_value.spec_divided_by(price) {
            None => Err(SpawnError::Unsizable),
            Some(quantity) => Ok(
                TradeView {
                    id,
                    setup,
                    quantity,
                    dollar_value,
                    source: self.source,
                    notifications_enabled: self.notifications_enabled,
                    trading_enabled: true,
                    resolution_strategy: self.strategy.spec_default_resolution_strategy(),
                    trading_strategy: self.strategy,
                    timeseries: self.ts_addr,
                    db_addr: self.db_addr,
                    status: TradeStatus::Created,
                },
            ),
        }
    }

    pub open spec fn after_event(self, event: SetupFinderEvent) -> SetupFinderView<S> {
        match event {
            SetupFinderEvent::CandleAdded { reachable, response } => self.after_notification(
                reachable,
                response,
            ),
            SetupFinderEvent::TradeSpawned(addr) => self.trade_spawned(addr),
        }
    }

    /// Whether the finder fires on `event`.
    pub open spec fn fires_on(self, event: SetupFinderEvent) -> bool {
        match event {
            SetupFinderEvent::CandleAdded { reachable, response } => self.outcome(
                reachable,
                response,
            ).fired(),
            SetupFinderEvent::TradeSpawned(_) => false,
        }
    }

    /// The finder after `events` have happened to it in turn.
    pub open spec fn run(self, events: Seq<SetupFinderEvent>) -> SetupFinderView<S>
        decreases events.len(),
    {
        if events.len() == 0 {
            self
        } else {
            self.run(events.drop_last()).after_event(events.last())
        }
    }

    /// How often the finder fires while `events` happen to it in turn.
    pub open spec fn times_fired(self, events: Seq<SetupFinderEvent>) -> nat
        decreases events.len(),
    {
        if events.len() == 0 {
            0
        } else {
            let earlier = self.times_fired(events.drop_last());
            if self.run(events.drop_last()).fires_on(events.last()) {
                earlier + 1
            } else {
                earlier
            }
        }
    }
}

/// Why a setup finder could not be made.
#[derive(Clone, Copy, Debug, PartialEq, Eq, Structural)]
pub enum SetupFinderBuildError {
    MissingStrategy,
    MissingTimeSeries,
    MissingSource,
    MissingDb,
}

impl<S: TradingStrategy> SetupFinder<S> {
    /// A finder that has not fired yet.
    pub fn new(
        strategy: S,
        ts_addr: TimeSeriesAddr,
        db_addr: DbAddr,
        notifications_enabled: bool,
        live_trading_enabled: bool,
        only_trigger_once: bool,
        spawned_trade_addrs: &[TradeAddr],
        source: DataSource,
    ) -> (r: Result<SetupFinder<S>, SetupFinderBuildError>)
        ensures
            r matches Ok(finder) && finder@ == (SetupFinderView {
                strategy,
                ts_addr,
                db_addr,
                source,
                notifications_enabled,
                live_trading_enabled,
                only_trigger_once,
                triggered: false,
                spawned: spawned_trade_addrs@,
            }),
    {
        Ok(
            SetupFinder {
                strategy,
                ts_addr,
                db_addr,
                notifications_enabled,
                live_trading_enabled,
                only_trigger_once,
                spawned_trade_addrs: slice_to_vec(spawned_trade_addrs),
                source,
                triggered: false,
            },
        )
    }

    /// What the finder sends when it starts running at `own`: its
    /// subscription to the series it watches.
    pub fn started(&self, own: SetupFinderAddr) -> (payload: TSSubscribePayload)
        ensures
            payload.observer.0 == own.0,
    {
        TSSubscribePayload { observer: own.recipient() }
    }

    /// Takes in the notification that a candle was added, together with the
    /// outcome of probing each spawned trade: `reachable[i]` says whether
    /// the trade at `spawned_trade_addrs[i]` can still be reached.
    ///
    /// A finder that fires once only and has fired does nothing. Any other
    /// drops the trades that cannot be reached and hands back the request
    /// to put to the series; the answer goes to `handle_candles`.
    pub fn handle(&mut self, _msg: &CandleAddedPayload, reachable: &Vec<bool>) -> (request:
        Option<RequestLatestCandlesPayload>)
        ensures
            request == old(self)@.request(),
            final(self)@ == old(self)@.pruned(reachable@),
    {
        if self.only_trigger_once && self.triggered {
            return None;
        }
        self.clear_closed_trades(reachable);
        Some(RequestLatestCandlesPayload { n: self.strategy.candles_needed_for_setup() })
    }

    /// Shows the strategy the latest candles of the series and decides what
    /// follows.
    ///
    /// The strategy is asked through a duplicate, so the finder's own
    /// strategy is never changed by being asked. Where it reports a setup,
    /// the setup is completed with the symbol and interval of the series and
    /// the finder is marked as having fired.
    pub fn handle_candles(&mut self, response: &LatestCandleResponse) -> (outcome: SetupOutcome)
        ensures
            outcome@ == old(self)@.evaluate(response@),
            final(self)@ == old(self)@.after_evaluate(response@),
    {
        if self.only_trigger_once && self.triggered {
            return SetupOutcome::Spent;
        }
        let mut strategy = self.strategy.duplicate();
        if response.candles.len() < strategy.candles_needed_for_setup() {
            return SetupOutcome::InsufficientCandles;
        }
        let sb = match strategy.check_last_for_setup(&response.candles) {
            Some(sb) => sb,
            None => {
                return SetupOutcome::NoSetup;
            },
        };
        let setup = match sb.symbol(response.symbol.as_str()).interval(&response.interval).build() {
            Ok(setup) => setup,
            Err(e) => {
                return SetupOutcome::Rejected(e);
            },
        };
        self.handle_triggered(TriggeredPayload);
        if self.spawned_trade_addrs.len() > 0 {
            return SetupOutcome::AlreadyInTrade(setup);
        }
        SetupOutcome::Found {
            setup,
            open_trade: self.live_trading_enabled,
            notify: self.notifications_enabled,
        }
    }

    /// Makes the trade to start on `setup`: half of the available balance
    /// is put in, and the quantity is what that buys at `last_price`.
    ///
    /// The trade gets a fresh identifier, the strategy's default exit
    /// policy, a duplicate of the strategy, and the addresses and source of
    /// the finder. Fails only if no quantity can be computed.
    pub fn spawn_trade(&self, setup: &Setup, wallet: &Wallet, last_price: Decimal) -> (r: Result<
        Trade<S>,
        SpawnError,
    >)
        ensures
            match r {
                Ok(trade) => self@.sized_trade(
                    setup@,
                    wallet.total_available_balance,
                    last_price,
                    trade.id,
                ) == Ok::<TradeView<S>, SpawnError>(trade@),
                Err(e) => forall|id: uuid::Uuid|
                    self@.sized_trade(setup@, wallet.total_available_balance, last_price, id)
                        == Err::<TradeView<S>, SpawnError>(e),
            },
    {
        let dollar_value = wallet.total_available_balance.half();
        let quantity = match dollar_value.divided_by(last_price) {
            Some(q) => q,
            None => {
                return Err(SpawnError::Unsizable);
            },
        };
        let built = TradeBuilder::new().setup(setup.duplicate()).quantity(quantity).dollar_value(
            dollar_value,
        ).source(self.source).notifications_enabled(self.notifications_enabled).trading_enabled(
            true,
        ).resolution_strategy(self.strategy.default_resolution_strategy()).orientation(
            self.strategy.orientation(),
        ).timeseries_addr(self.ts_addr).trading_strategy(self.strategy.duplicate()).db_addr(
            self.db_addr,
        ).build();
        match built {
            Ok(trade) => Ok(trade),
            Err(_) => {
                proof {
                    assert(false);
                }
                Err(SpawnError::Unsizable)
            },
        }
    }

    /// Records the trade that was started for this finder, and hands back
    /// the subscription that lets the trade follow the series.
    pub fn handle_trade_spawned(&mut self, msg: TradeSpawnedMsg) -> (subscription:
        TSSubscribePayload)
        ensures
            final(self)@ == old(self)@.trade_spawned(msg.addr),
            subscription.observer.0 == msg.addr.0,
    {
        self.spawned_trade_addrs.push(msg.addr);
        TSSubscribePayload { observer: msg.addr.recipient() }
    }

    /// Marks the finder as having fired.
    pub fn handle_triggered(&mut self, _msg: TriggeredPayload)
        ensures
            final(self)@ == (SetupFinderView { triggered: true, ..old(self)@ }),
    {
        self.triggered = true;
    }

    /// Drops every spawned trade that did not answer the liveness probe.
    pub fn clear_closed_trades(&mut self, reachable: &Vec<bool>)
        ensures
            final(self)@ == (SetupFinderView {
                spawned: still_reachable(old(self)@.spawned, reachable@),
                ..old(self)@
            }),
    {
        let mut trade_addrs: Vec<TradeAddr> = Vec::new();
        let mut i: usize = 0;
        while i < self.spawned_trade_addrs.len()
            invariant
                *self == *old(self),
                i <= self.spawned_trade_addrs.len(),
                trade_addrs@ == still_reachable(
                    self.spawned_trade_addrs@.take(i as int),
                    reachable@,
                ),
            decreases self.spawned_trade_addrs.len() - i,
        {
            proof {
                let addrs = self.spawned_trade_addrs@;
                assert(addrs.take(i + 1).drop_last() =~= addrs.take(i as int));
            }
            if i < reachable.len() && reachable[i] {
                trade_addrs.push(self.spawned_trade_addrs[i]);
            }
            i += 1;
        }
        assert(self.spawned_trade_addrs@.take(i as int) =~= self.spawned_trade_addrs@);
        self.spawned_trade_addrs = trade_addrs;
    }
}

/// Whatever it is shown, the strategy reports a setup with the candle and
/// the orientation filled in.
pub open spec fn always_reports<S: TradingStrategy>(strategy: S) -> bool {
    forall|window: Seq<CandleView>|
        window.len() >= strategy.spec_candles_needed_for_setup() ==> {
            &&& (#[trigger] strategy.signal(window)) matches Some(report)
            &&& report.candle is Some
            &&& report.orientation is Some
        }
}

/// Every notification among `events` comes with at least `needed` candles.
pub open spec fn answered_in_full(events: Seq<SetupFinderEvent>, needed: nat) -> bool {
    forall|i: int|
        0 <= i < events.len() ==> ((#[trigger] events[i]) matches SetupFinderEvent::CandleAdded {
            response,
            ..
        } ==> response.candles.len() >= needed)
}

/// The number of notifications among `events`.
pub open spec fn notifications(events: Seq<SetupFinderEvent>) -> nat
    decreases events.len(),
{
    if events.len() == 0 {
        0
    } else if events.last() is CandleAdded {
        notifications(events.drop_last()) + 1
    } else {
        notifications(events.drop_last())
    }
}

impl<S: TradingStrategy> SetupFinderView<S> {
    /// Whether `event` is a notification on which the finder asks for a
    /// trade to be started.
    pub open spec fn asks_for_trade(self, event: SetupFinderEvent) -> bool {
        event matches SetupFinderEvent::CandleAdded { reachable, response } && self.outcome(
            reachable,
            response,
        ).opens_trade()
    }

    /// Trades are reported as spawned only where the finder has just asked
    /// for one: each `TradeSpawned` among `events` directly follows a
    /// notification on which the finder asked for a trade.
    pub open spec fn orderly(self, events: Seq<SetupFinderEvent>) -> bool
        decreases events.len(),
    {
        if events.len() == 0 {
            true
        } else {
            let earlier = events.drop_last();
            &&& self.orderly(earlier)
            &&& events.last() is TradeSpawned ==> earlier.len() > 0 && self.run(
                earlier.drop_last(),
            ).asks_for_trade(earlier.last())
        }
    }
}

/// Probing drops trades and adds none.
pub proof fn lemma_still_reachable_len(addrs: Seq<TradeAddr>, reachable: Seq<bool>)
    ensures
        still_reachable(addrs, reachable).len() <= addrs.len(),
    decreases addrs.len(),
{
    if addrs.len() > 0 {
        lemma_still_reachable_len(addrs.drop_last(), reachable);
    }
}

/// A trade that answers the probe is kept.
pub proof fn lemma_still_reachable_keeps(addrs: Seq<TradeAddr>, reachable: Seq<bool>, i: int)
    requires
        0 <= i < addrs.len(),
        i < reachable.len(),
        reachable[i],
    ensures
        still_reachable(addrs, reachable).contains(addrs[i]),
    decreases addrs.len(),
{
    let before = still_reachable(addrs.drop_last(), reachable);
    if i == addrs.len() - 1 {
        assert(before.push(addrs.last())[before.len() as int] == addrs[i]);
    } else {
        lemma_still_reachable_keeps(addrs.drop_last(), reachable, i);
        let j = choose|j: int| 0 <= j < before.len() && before[j] == addrs[i];
        assert(still_reachable(addrs, reachable)[j] == addrs[i]);
    }
}

/// Nothing that happens to a finder changes how it was set up, and a finder
/// that has fired stays fired.
pub proof fn lemma_run_keeps_setup<S: TradingStrategy>(
    finder: SetupFinderView<S>,
    events: Seq<SetupFinderEvent>,
)
    ensures
        finder.run(events).strategy == finder.strategy,
        finder.run(events).only_trigger_once == finder.only_trigger_once,
        finder.run(events).live_trading_enabled == finder.live_trading_enabled,
        finder.run(events).notifications_enabled == finder.notifications_enabled,
        finder.triggered ==> finder.run(events).triggered,
    decreases events.len(),
{
    if events.len() > 0 {
        lemma_run_keeps_setup(finder, events.drop_last());
    }
}

/// A finder set to fire once only fires at most once, whatever happens to
/// it and however often its strategy reports a setup; if it has fired
/// before, it never fires again.
pub proof fn law_once_only_fires_at_most_once<S: TradingStrategy>(
    finder: SetupFinderView<S>,
    events: Seq<SetupFinderEvent>,
)
    requires
        finder.only_trigger_once,
    ensures
        finder.times_fired(events) <= 1,
        finder.triggered ==> finder.times_fired(events) == 0,
        finder.times_fired(events) == 1 ==> finder.run(events).triggered,
    decreases events.len(),
{
    if events.len() > 0 {
        let earlier = events.drop_last();
        law_once_only_fires_at_most_once(finder, earlier);
        lemma_run_keeps_setup(finder, earlier);
    }
}

/// A finder set to fire once only, which has not fired yet and whose
/// strategy reports a setup whenever it is asked, fires exactly once: on
/// the first notification, and on none of those that follow.
pub proof fn law_once_only_fires_exactly_once<S: TradingStrategy>(
    finder: SetupFinderView<S>,
    events: Seq<SetupFinderEvent>,
)
    requires
        finder.only_trigger_once,
        !finder.triggered,
        always_reports(finder.strategy),
        answered_in_full(events, finder.strategy.spec_candles_needed_for_setup()),
    ensures
        finder.times_fired(events) == (if notifications(events) > 0 {
            1nat
        } else {
            0nat
        }),
        finder.run(events).triggered == (notifications(events) > 0),
    decreases events.len(),
{
    if events.len() > 0 {
        let earlier = events.drop_last();
        assert forall|i: int| 0 <= i < earlier.len() implies ((#[trigger] earlier[i]) matches SetupFinderEvent::CandleAdded {
            response,
            ..
        } ==> response.candles.len() >= finder.strategy.spec_candles_needed_for_setup()) by {
            assert(earlier[i] == events[i]);
        }
        law_once_only_fires_exactly_once(finder, earlier);
        lemma_run_keeps_setup(finder, earlier);
        let before = finder.run(earlier);
        match events.last() {
            SetupFinderEvent::CandleAdded { reachable, response } => {
                assert(events[events.len() - 1] == events.last());
                assert(response.candles.len()
                    >= finder.strategy.spec_candles_needed_for_setup());
                if !before.triggered {
                    let report = before.strategy.signal(response.candles);
                    assert(report is Some);
                    assert(before.outcome(reachable, response).fired());
                }
            },
            SetupFinderEvent::TradeSpawned(_) => {},
        }
    }
}

/// While a trade spawned earlier still answers the probe, a notification
/// starts no second trade and announces nothing, whatever the strategy
/// reports, and the live trade stays on record.
pub proof fn law_single_live_trade<S: TradingStrategy>(
    finder: SetupFinderView<S>,
    reachable: Seq<bool>,
    response: LatestCandleResponseView,
    i: int,
)
    requires
        0 <= i < finder.spawned.len(),
        i < reachable.len(),
        reachable[i],
    ensures
        !finder.outcome(reachable, response).opens_trade(),
        !finder.outcome(reachable, response).notifies(),
        finder.after_notification(reachable, response).spawned.contains(finder.spawned[i]),
{
    lemma_still_reachable_keeps(finder.spawned, reachable, i);
    if finder.spent() {
        assert(finder.spawned[i] == finder.spawned[i]);
    }
}

/// A finder that starts out with at most one trade on record never has more
/// than one, as long as trades are reported as spawned only where it has
/// asked for one.
pub proof fn law_at_most_one_live_trade<S: TradingStrategy>(
    finder: SetupFinderView<S>,
    events: Seq<SetupFinderEvent>,
)
    requires
        finder.spawned.len() <= 1,
        finder.orderly(events),
    ensures
        finder.run(events).spawned.len() <= 1,
    decreases events.len(),
{
    if events.len() > 0 {
        let earlier = events.drop_last();
        law_at_most_one_live_trade(finder, earlier);
        let before = finder.run(earlier);
        match events.last() {
            SetupFinderEvent::CandleAdded { reachable, response } => {
                lemma_still_reachable_len(before.spawned, reachable);
            },
            SetupFinderEvent::TradeSpawned(addr) => {
                let asked = finder.run(earlier.drop_last());
                assert(asked.asks_for_trade(earlier.last()));
                assert(before == asked.after_event(earlier.last()));
                assert(before.spawned.len() == 0);
            },
        }
    }
}

} // verus!
