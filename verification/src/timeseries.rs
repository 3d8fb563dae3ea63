use crate::addresses::ObserverId;
use crate::candle::{bars_of, candle_views, Bar, Candle, CandleView};
use crate::indicators::{Indicator, IndicatorType};
use crate::interval::Interval;
use crate::payloads::{
    CandleAddedPayload, LatestCandleResponse, LatestCandleResponseView,
    RequestLatestCandlesPayload, TSSubscribePayload, WebsocketPayload,
};
use vstd::prelude::*;
use vstd::string::*;

verus! {

/// Computes indicator values from price history. The series asks it for the
/// value of each registered kind whenever a candle is appended, and for the
/// values over the whole history when a kind is registered.
///
/// `value(kind, bars)` is the value of `kind` on the last bar of `bars`, given
/// all of `bars` as history.
pub trait IndicatorCalculator {
    /// Whether `kind` can be computed at all on a series with this history.
    spec fn supports(&self, kind: IndicatorType, bars: Seq<Bar>) -> bool;

    spec fn value(&self, kind: IndicatorType, bars: Seq<Bar>) -> Indicator;

    fn can_calculate(&self, kind: IndicatorType, candles: &Vec<Candle>) -> (ok: bool)
        ensures
            ok == self.supports(kind, bars_of(candle_views(candles@))),
    ;

    /// The value of `kind` on `candles[last]`, from the history up to it.
    fn calculate(&self, kind: IndicatorType, candles: &Vec<Candle>, last: usize) -> (v: Indicator)
        requires
            last < candles.len(),
        ensures
            v == self.value(kind, bars_of(candle_views(candles@)).take(last + 1)),
    ;
}

/// Why a series refused a request.
#[derive(Clone, Copy, Debug, PartialEq, Eq, Structural)]
pub enum TimeSeriesError {
    /// The candle does not start after the last candle of the series.
    Validation,
    /// The indicator cannot be computed on this series.
    UnsupportedIndicator,
    /// The series holds fewer candles than were asked for.
    InsufficientHistory,
}

/// One notification to deliver: `payload` goes to `observer`.
#[derive(Debug, PartialEq, Eq)]
pub struct CandleAddedNotice {
    pub observer: ObserverId,
    pub payload: CandleAddedPayload,
}

/// The views of a list of notices: who is told, and of which candle.
pub open spec fn notice_views(notices: Seq<CandleAddedNotice>) -> Seq<(ObserverId, CandleView)> {
    Seq::new(notices.len(), |i: int| (notices[i].observer, notices[i].payload.candle@))
}

/// The ordered candle history of one symbol at one interval, the indicators
/// kept up to date on it, and the subscribers that are told of every append.
pub struct TimeSeries<C: IndicatorCalculator> {
    pub symbol: String,
    pub interval: Interval,
    pub candles: Vec<Candle>,
    pub indicators: Vec<IndicatorType>,
    pub observers: Vec<ObserverId>,
    pub validate_candles_on_add: bool,
    pub calculator: C,
}

pub struct TimeSeriesView {
    pub symbol: Seq<char>,
    pub interval: Interval,
    pub candles: Seq<CandleView>,
    pub indicators: Seq<IndicatorType>,
    pub observers: Seq<ObserverId>,
    pub validate: bool,
}

impl<C: IndicatorCalculator> View for TimeSeries<C> {
    type V = TimeSeriesView;

    open spec fn view(&self) -> TimeSeriesView {
        TimeSeriesView {
            symbol: self.symbol@,
            interval: self.interval,
            candles: candle_views(self.candles@),
            indicators: self.indicators@,
            observers: self.observers@,
            validate: self.validate_candles_on_add,
        }
    }
}

/// The indicator map of a candle once every kind in `kinds` has been computed
/// on `bars`: those kinds hold the computed value, every other kind keeps what
/// the candle came with.
pub open spec fn computed_indicators<C: IndicatorCalculator>(
    calculator: C,
    kinds: Seq<IndicatorType>,
    bars: Seq<Bar>,
    base: Map<IndicatorType, Indicator>,
) -> Map<IndicatorType, Indicator> {
    Map::new(
        |k: IndicatorType| kinds.contains(k) || base.contains_key(k),
        |k: IndicatorType|
            if kinds.contains(k) {
                calculator.value(k, bars)
            } else {
                base[k]
            },
    )
}

/// The test that every observer but `observer` passes.
pub open spec fn other_than(observer: ObserverId) -> spec_fn(ObserverId) -> bool {
    |o: ObserverId| o != observer
}

/// Start timestamps grow strictly along `candles`.
pub open spec fn strictly_increasing(candles: Seq<CandleView>) -> bool {
    forall|i: int, j: int|
        0 <= i < j < candles.len() ==> (#[trigger] candles[i]).timestamp < (
        #[trigger] candles[j]).timestamp
}

impl TimeSeriesView {
    /// Whether `candle` may be appended: always without validation, and with
    /// it only if the candle starts after the last one held.
    pub open spec fn accepts(self, candle: CandleView) -> bool {
        !self.validate || self.candles.len() == 0 || self.candles.last().timestamp
            < candle.timestamp
    }

    /// `candle` as the series stores it: with the value of every registered
    /// indicator, computed on the history that ends with this candle.
    pub open spec fn stored<C: IndicatorCalculator>(
        self,
        calculator: C,
        candle: CandleView,
    ) -> CandleView {
        CandleView {
            indicators: computed_indicators(
                calculator,
                self.indicators,
                bars_of(self.candles).push(candle.bar()),
                candle.indicators,
            ),
            ..candle
        }
    }

    /// The series after `candle` has been appended.
    pub open spec fn add_candle<C: IndicatorCalculator>(
        self,
        calculator: C,
        candle: CandleView,
    ) -> TimeSeriesView {
        TimeSeriesView { candles: self.candles.push(self.stored(calculator, candle)), ..self }
    }

    /// The notifications that an append of `stored` gives rise to: one for
    /// each subscriber, in the order in which they subscribed.
    pub open spec fn notices(self, stored: CandleView) -> Seq<(ObserverId, CandleView)> {
        Seq::new(self.observers.len(), |i: int| (self.observers[i], stored))
    }

    /// The series after `kind` has been registered and computed on every
    /// candle held.
    pub open spec fn add_indicator<C: IndicatorCalculator>(
        self,
        calculator: C,
        kind: IndicatorType,
    ) -> TimeSeriesView {
        TimeSeriesView {
            candles: Seq::new(
                self.candles.len(),
                |i: int|
                    self.candles[i].with_indicator(
                        kind,
                        calculator.value(kind, bars_of(self.candles).take(i + 1)),
                    ),
            ),
            indicators: if self.indicators.contains(kind) {
                self.indicators
            } else {
                self.indicators.push(kind)
            },
            ..self
        }
    }

    /// The answer to a request for the last `n` candles.
    pub open spec fn latest(self, n: nat) -> LatestCandleResponseView
        recommends
            n <= self.candles.len(),
    {
        LatestCandleResponseView {
            symbol: self.symbol,
            interval: self.interval,
            candles: self.candles.subrange(self.candles.len() - n, self.candles.len() as int),
        }
    }

    /// The series after `observer` has subscribed. Subscribing twice is the
    /// same as subscribing once.
    pub open spec fn subscribe(self, observer: ObserverId) -> TimeSeriesView {
        if self.observers.contains(observer) {
            self
        } else {
            TimeSeriesView { observers: self.observers.push(observer), ..self }
        }
    }

    /// The series after `observer` has been taken off the subscribers.
    pub open spec fn unsubscribe(self, observer: ObserverId) -> TimeSeriesView {
        TimeSeriesView {
            observers: self.observers.filter(other_than(observer)),
            ..self
        }
    }

    /// The series after each of `candles` has been appended in turn, or
    /// `None` if one of them is refused.
    pub open spec fn add_all<C: IndicatorCalculator>(
        self,
        calculator: C,
        candles: Seq<CandleView>,
    ) -> Option<TimeSeriesView>
        decreases candles.len(),
    {
        if candles.len() == 0 {
            Some(self)
        } else if !self.accepts(candles[0]) {
            None
        } else {
            self.add_candle(calculator, candles[0]).add_all(calculator, candles.drop_first())
        }
    }
}

fn holds_kind(kinds: &Vec<IndicatorType>, kind: IndicatorType) -> (found: bool)
    ensures
        found == kinds@.contains(kind),
{
    let mut i: usize = 0;
    while i < kinds.len()
        invariant
            i <= kinds.len(),
            forall|j: int| 0 <= j < i ==> kinds@[j] != kind,
        decreases kinds.len() - i,
    {
        if kinds[i] == kind {
            return true;
        }
        i += 1;
    }
    false
}

fn holds_observer(observers: &Vec<ObserverId>, observer: ObserverId) -> (found: bool)
    ensures
        found == observers@.contains(observer),
{
    let mut i: usize = 0;
    while i < observers.len()
        invariant
            i <= observers.len(),
            forall|j: int| 0 <= j < i ==> observers@[j] != observer,
        decreases observers.len() - i,
    {
        if observers[i] == observer {
            return true;
        }
        i += 1;
    }
    false
}

impl<C: IndicatorCalculator> TimeSeries<C> {
    /// An empty series that validates the candles added to it.
    pub fn new(symbol: String, interval: Interval, calculator: C) -> (ts: TimeSeries<C>)
        ensures
            ts@ == (TimeSeriesView {
                symbol: symbol@,
                interval,
                candles: Seq::empty(),
                indicators: Seq::empty(),
                observers: Seq::empty(),
                validate: true,
            }),
            ts.calculator == calculator,
    {
        let ts = TimeSeries {
            symbol,
            interval,
            candles: Vec::new(),
            indicators: Vec::new(),
            observers: Vec::new(),
            validate_candles_on_add: true,
            calculator,
        };
        assert(candle_views(ts.candles@) =~= Seq::empty());
        ts
    }

    /// Appends `candle`, computes every registered indicator for it, and
    /// returns the notifications to deliver, one for each subscriber in
    /// subscription order.
    ///
    /// With validation enabled a candle that does not start after the last
    /// one held is refused, and the series stays as it was.
    pub fn add_candle(&mut self, candle: &Candle) -> (r: Result<
        Vec<CandleAddedNotice>,
        TimeSeriesError,
    >)
        ensures
            final(self).calculator == old(self).calculator,
            r is Ok <==> old(self)@.accepts(candle@),
            r matches Err(e) ==> e == TimeSeriesError::Validation && final(self)@ == old(self)@,
            r matches Ok(notices) ==> {
                &&& final(self)@ == old(self)@.add_candle(old(self).calculator, candle@)
                &&& notice_views(notices@) == old(self)@.notices(
                    old(self)@.stored(old(self).calculator, candle@),
                )
            },
    {
        let n: usize = self.candles.len();
        if self.validate_candles_on_add && n > 0 && candle.timestamp <= self.candles[n
            - 1].timestamp {
            return Err(TimeSeriesError::Validation);
        }
        let ghost before = candle_views(self.candles@);
        let ghost bars = bars_of(before).push(candle@.bar());
        self.candles.push(candle.duplicate());
        assert(bars_of(candle_views(self.candles@)) =~= bars);
        assert(bars.take(n + 1) =~= bars);

        let mut stored: Candle = candle.duplicate();
        let ghost mid = *self;
        let mut i: usize = 0;
        assert(stored@.indicators =~= computed_indicators(
            self.calculator,
            self.indicators@.take(0),
            bars,
            candle@.indicators,
        ));
        while i < self.indicators.len()
            invariant
                *self == mid,
                n < self.candles.len(),
                i <= self.indicators.len(),
                bars_of(candle_views(self.candles@)).take(n + 1) == bars,
                stored@ == (CandleView {
                    indicators: computed_indicators(
                        self.calculator,
                        self.indicators@.take(i as int),
                        bars,
                        candle@.indicators,
                    ),
                    ..candle@
                }),
            decreases self.indicators.len() - i,
        {
            let kind: IndicatorType = self.indicators[i];
            let value: Indicator = self.calculator.calculate(kind, &self.candles, n);
            stored.insert_indicator(kind, value);
            proof {
                let kinds = self.indicators@;
                assert(kinds.take(i + 1) =~= kinds.take(i as int).push(kind));
                assert forall|k: IndicatorType| #[trigger]
                    kinds.take(i + 1).contains(k) <==> (kinds.take(i as int).contains(k) || k
                        == kind) by {
                    if kinds.take(i as int).contains(k) {
                        let j = choose|j: int|
                            0 <= j < kinds.take(i as int).len() && kinds.take(i as int)[j] == k;
                        assert(kinds.take(i + 1)[j] == k);
                    }
                    if k == kind {
                        assert(kinds.take(i + 1)[i as int] == k);
                    }
                }
                assert(stored@.indicators =~= computed_indicators(
                    self.calculator,
                    kinds.take(i + 1),
                    bars,
                    candle@.indicators,
                ));
            }
            i += 1;
        }
        assert(self.indicators@.take(i as int) =~= self.indicators@);

        let mut notices: Vec<CandleAddedNotice> = Vec::new();
        let mut j: usize = 0;
        while j < self.observers.len()
            invariant
                *self == mid,
                j <= self.observers.len(),
                notices.len() == j,
                forall|k: int|
                    0 <= k < j ==> (#[trigger] notices@[k]).observer == self.observers@[k]
                        && notices@[k].payload.candle@ == stored@,
            decreases self.observers.len() - j,
        {
            notices.push(
                CandleAddedNotice {
                    observer: self.observers[j],
                    payload: CandleAddedPayload { candle: stored.duplicate() },
                },
            );
            j += 1;
        }
        self.candles.set(n, stored);
        assert(candle_views(self.candles@) =~= before.push(
            old(self)@.stored(old(self).calculator, candle@),
        ));
        assert(notice_views(notices@) =~= old(self)@.notices(
            old(self)@.stored(old(self).calculator, candle@),
        ));
        Ok(notices)
    }

    /// Registers `kind`: computes it on every candle held and keeps it up to
    /// date on every candle added from now on. Fails, and changes nothing, if
    /// the calculator cannot compute `kind` on this series.
    pub fn add_indicator(&mut self, kind: IndicatorType) -> (r: Result<(), TimeSeriesError>)
        ensures
            final(self).calculator == old(self).calculator,
            r is Ok <==> old(self).calculator.supports(kind, bars_of(old(self)@.candles)),
            r matches Err(e) ==> e == TimeSeriesError::UnsupportedIndicator && final(self)@ == old(
                self,
            )@,
            r is Ok ==> final(self)@ == old(self)@.add_indicator(old(self).calculator, kind),
    {
        if !self.calculator.can_calculate(kind, &self.candles) {
            return Err(TimeSeriesError::UnsupportedIndicator);
        }
        let ghost before = candle_views(self.candles@);
        let mut updated: Vec<Candle> = Vec::new();
        let mut i: usize = 0;
        while i < self.candles.len()
            invariant
                *self == *old(self),
                before == candle_views(self.candles@),
                i <= self.candles.len(),
                updated.len() == i,
                forall|j: int|
                    0 <= j < i ==> (#[trigger] updated@[j])@ == before[j].with_indicator(
                        kind,
                        self.calculator.value(kind, bars_of(before).take(j + 1)),
                    ),
            decreases self.candles.len() - i,
        {
            let value: Indicator = self.calculator.calculate(kind, &self.candles, i);
            let mut candle: Candle = self.candles[i].duplicate();
            candle.insert_indicator(kind, value);
            updated.push(candle);
            i += 1;
        }
        self.candles = updated;
        if !holds_kind(&self.indicators, kind) {
            self.indicators.push(kind);
        }
        assert(candle_views(self.candles@) =~= old(self)@.add_indicator(
            old(self).calculator,
            kind,
        ).candles);
        Ok(())
    }

    /// The last `n` candles, oldest first, with the symbol and interval of
    /// the series. Fails if the series holds fewer than `n` candles.
    pub fn request_latest(&self, request: RequestLatestCandlesPayload) -> (r: Result<
        LatestCandleResponse,
        TimeSeriesError,
    >)
        ensures
            r is Ok <==> request.n <= self@.candles.len(),
            r matches Err(e) ==> e == TimeSeriesError::InsufficientHistory,
            r matches Ok(response) ==> response@ == self@.latest(request.n as nat),
    {
        let len: usize = self.candles.len();
        if request.n > len {
            return Err(TimeSeriesError::InsufficientHistory);
        }
        let start: usize = len - request.n;
        let mut candles: Vec<Candle> = Vec::new();
        let mut i: usize = start;
        while i < len
            invariant
                len == self.candles.len(),
                start <= i <= len,
                candles.len() == i - start,
                forall|j: int| 0 <= j < i - start ==> (#[trigger] candles@[j])@ == self.candles@[start + j]@,
            decreases len - i,
        {
            candles.push(self.candles[i].duplicate());
            i += 1;
        }
        let response = LatestCandleResponse {
            symbol: self.symbol.clone(),
            interval: self.interval,
            candles,
        };
        assert(response@.candles =~= self@.latest(request.n as nat).candles);
        Ok(response)
    }

    /// Adds the observer named in `payload` to the subscribers, unless it is
    /// one already.
    pub fn subscribe(&mut self, payload: TSSubscribePayload)
        ensures
            final(self).calculator == old(self).calculator,
            final(self)@ == old(self)@.subscribe(payload.observer),
    {
        if !holds_observer(&self.observers, payload.observer) {
            self.observers.push(payload.observer);
        }
    }

    /// Takes `observer` off the subscribers.
    pub fn unsubscribe(&mut self, observer: ObserverId)
        ensures
            final(self).calculator == old(self).calculator,
            final(self)@ == old(self)@.unsubscribe(observer),
    {
        let ghost keep = other_than(observer);
        let mut kept: Vec<ObserverId> = Vec::new();
        let mut i: usize = 0;
        assert(self.observers@.take(0).filter(keep) =~= Seq::empty()) by {
            self.observers@.take(0).lemma_filter_len(keep);
        }
        while i < self.observers.len()
            invariant
                *self == *old(self),
                keep == other_than(observer),
                i <= self.observers.len(),
                kept@ == self.observers@.take(i as int).filter(keep),
            decreases self.observers.len() - i,
        {
            proof {
                self.observers@.lemma_take_succ_push(i as int);
                self.observers@.take(i as int).lemma_filter_push(self.observers@[i as int], keep);
            }
            if self.observers[i] != observer {
                kept.push(self.observers[i]);
            }
            i += 1;
        }
        assert(self.observers@.take(i as int) =~= self.observers@);
        self.observers = kept;
    }

    /// Takes in what the market-data feed hands over: a payload that is `ok`
    /// and carries a candle has that candle appended; any other payload is
    /// passed over.
    pub fn handle_websocket(&mut self, payload: &WebsocketPayload) -> (r: Result<
        Vec<CandleAddedNotice>,
        TimeSeriesError,
    >)
        ensures
            final(self).calculator == old(self).calculator,
            match payload.candle {
                Some(candle) if payload.ok => {
                    &&& r is Ok <==> old(self)@.accepts(candle@)
                    &&& r matches Err(e) ==> e == TimeSeriesError::Validation && final(self)@
                        == old(self)@
                    &&& r matches Ok(notices) ==> {
                        &&& final(self)@ == old(self)@.add_candle(old(self).calculator, candle@)
                        &&& notice_views(notices@) == old(self)@.notices(
                            old(self)@.stored(old(self).calculator, candle@),
                        )
                    }
                },
                _ => {
                    &&& final(self)@ == old(self)@
                    &&& r matches Ok(notices)
                    &&& notices@.len() == 0
                },
            },
    {
        if payload.ok {
            match &payload.candle {
                Some(candle) => {
                    return self.add_candle(candle);
                },
                None => {},
            }
        }
        Ok(Vec::new())
    }
}


/// Appending a candle that the series accepts keeps a strictly increasing
/// history strictly increasing, as long as the series validates.
pub proof fn law_validation_keeps_order<C: IndicatorCalculator>(
    ts: TimeSeriesView,
    calculator: C,
    candle: CandleView,
)
    requires
        ts.validate,
        strictly_increasing(ts.candles),
        ts.accepts(candle),
    ensures
        strictly_increasing(ts.add_candle(calculator, candle).candles),
{
    let after = ts.add_candle(calculator, candle).candles;
    assert forall|i: int, j: int| 0 <= i < j < after.len() implies (#[trigger] after[i]).timestamp
        < (#[trigger] after[j]).timestamp by {
        if j < ts.candles.len() {
            assert(after[i] == ts.candles[i]);
            assert(after[j] == ts.candles[j]);
        } else {
            assert(after[j].timestamp == candle.timestamp);
            assert(after[i] == ts.candles[i]);
            if i < ts.candles.len() - 1 {
                assert(ts.candles[i].timestamp < ts.candles[ts.candles.len() - 1].timestamp);
            }
        }
    }
}

/// Candles whose start timestamps grow strictly, and of which the first
/// starts after the last candle held, are accepted one after another, with or
/// without validation. Afterwards the price history is the one held before
/// followed by the price data of the candles in their order; where no
/// indicator is registered the candles themselves are held unchanged.
pub proof fn law_monotonic_append<C: IndicatorCalculator>(
    ts: TimeSeriesView,
    calculator: C,
    candles: Seq<CandleView>,
)
    requires
        strictly_increasing(candles),
        ts.candles.len() > 0 && candles.len() > 0 ==> ts.candles.last().timestamp
            < candles[0].timestamp,
    ensures
        ts.add_all(calculator, candles) matches Some(after) && {
            &&& bars_of(after.candles) == bars_of(ts.candles) + bars_of(candles)
            &&& ts.indicators.len() == 0 ==> after.candles == ts.candles + candles
            &&& after.symbol == ts.symbol
            &&& after.interval == ts.interval
            &&& after.indicators == ts.indicators
            &&& after.observers == ts.observers
            &&& after.validate == ts.validate
        },
    decreases candles.len(),
{
    if candles.len() == 0 {
        assert(bars_of(ts.candles) + bars_of(candles) =~= bars_of(ts.candles));
        assert(ts.candles + candles =~= ts.candles);
    } else {
        let first = candles[0];
        let rest = candles.drop_first();
        let next = ts.add_candle(calculator, first);
        assert forall|i: int, j: int| 0 <= i < j < rest.len() implies (#[trigger] rest[i]).timestamp
            < (#[trigger] rest[j]).timestamp by {
            assert(rest[i] == candles[i + 1]);
            assert(rest[j] == candles[j + 1]);
        }
        if rest.len() > 0 {
            assert(rest[0] == candles[1]);
            assert(candles[0].timestamp < candles[1].timestamp);
        }
        law_monotonic_append(next, calculator, rest);
        let after = next.add_all(calculator, rest).unwrap();
        assert(bars_of(next.candles) =~= bars_of(ts.candles).push(first.bar()));
        assert(bars_of(after.candles) =~= bars_of(ts.candles) + bars_of(candles));
        if ts.indicators.len() == 0 {
            assert(ts.stored(calculator, first).indicators =~= first.indicators);
            assert(ts.stored(calculator, first) == first);
            assert(after.candles =~= ts.candles + candles);
        }
    }
}

} // verus!
