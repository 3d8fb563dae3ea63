use crate::candle::{candle_views, Candle, CandleView};
use crate::indicators::IndicatorType;
use crate::interval::Interval;
use crate::resolution::{InstantResolution, ResolutionStrategy};
use crate::setup::{SetupBuilder, SetupBuilderView, StrategyOrientation};
use vstd::prelude::*;
use vstd::string::*;

verus! {

/// A day of the week.
#[derive(Clone, Copy, Debug, PartialEq, Eq, Hash, Structural)]
pub enum Weekday {
    Mon,
    Tue,
    Wed,
    Thu,
    Fri,
    Sat,
    Sun,
}

/// The set of weekdays on which a strategy trades: one flag for each day.
#[derive(Clone, Copy, Debug, PartialEq, Eq, Hash, Structural)]
pub struct TradingDays {
    pub mon: bool,
    pub tue: bool,
    pub wed: bool,
    pub thu: bool,
    pub fri: bool,
    pub sat: bool,
    pub sun: bool,
}

impl TradingDays {
    pub open spec fn spec_contains(self, day: Weekday) -> bool {
        match day {
            Weekday::Mon => self.mon,
            Weekday::Tue => self.tue,
            Weekday::Wed => self.wed,
            Weekday::Thu => self.thu,
            Weekday::Fri => self.fri,
            Weekday::Sat => self.sat,
            Weekday::Sun => self.sun,
        }
    }

    /// The empty set of days.
    pub fn new() -> (days: TradingDays)
        ensures
            forall|d: Weekday| !days.spec_contains(d),
    {
        TradingDays {
            mon: false,
            tue: false,
            wed: false,
            thu: false,
            fri: false,
            sat: false,
            sun: false,
        }
    }

    pub fn contains(&self, day: Weekday) -> (b: bool)
        ensures
            b == self.spec_contains(day),
    {
        match day {
            Weekday::Mon => self.mon,
            Weekday::Tue => self.tue,
            Weekday::Wed => self.wed,
            Weekday::Thu => self.thu,
            Weekday::Fri => self.fri,
            Weekday::Sat => self.sat,
            Weekday::Sun => self.sun,
        }
    }

    /// Adds `day` to the set.
    pub fn insert(&mut self, day: Weekday)
        ensures
            forall|d: Weekday| final(self).spec_contains(d) == (d == day || old(self).spec_contains(d)),
    {
        match day {
            Weekday::Mon => self.mon = true,
            Weekday::Tue => self.tue = true,
            Weekday::Wed => self.wed = true,
            Weekday::Thu => self.thu = true,
            Weekday::Fri => self.fri = true,
            Weekday::Sat => self.sat = true,
            Weekday::Sun => self.sun = true,
        }
    }
}

/// The least number of candles a series must hold for a strategy to run.
pub trait HasMinLength {
    spec fn spec_min_length(&self) -> nat;

    fn min_length(&self) -> (n: usize)
        ensures
            n == self.spec_min_length(),
    ;
}

/// The indicators that a strategy reads on the candles it is shown.
pub trait RequiresIndicators {
    spec fn spec_required_indicators(&self) -> Seq<IndicatorType>;

    fn required_indicators(&self) -> (kinds: Vec<IndicatorType>)
        ensures
            kinds@ == self.spec_required_indicators(),
    ;
}

/// The view of what a strategy reports: the builder it hands back, if any.
pub open spec fn report_view(report: Option<SetupBuilder>) -> Option<SetupBuilderView> {
    match report {
        Some(b) => Some(b@),
        None => None,
    }
}

/// A strategy that looks for entry signals on the latest candles of a
/// series.
///
/// A strategy carries state of its own, so asking it changes it:
/// `signal` says what it reports when shown a window of candles, and
/// `after_check` what it has become by being asked. Whoever wants to ask
/// without changing the strategy asks a duplicate.
pub trait TradingStrategy: Sized + HasMinLength + RequiresIndicators {
    /// The number of candles that `check_last_for_setup` is to be shown.
    spec fn spec_candles_needed_for_setup(&self) -> nat;

    spec fn signal(&self, candles: Seq<CandleView>) -> Option<SetupBuilderView>;

    spec fn after_check(&self, candles: Seq<CandleView>) -> Self;

    spec fn spec_default_resolution_strategy(&self) -> ResolutionStrategy;

    spec fn spec_orientation(&self) -> StrategyOrientation;

    spec fn spec_interval(&self) -> Interval;

    spec fn spec_trading_days(&self) -> TradingDays;

    spec fn spec_name(&self) -> Seq<char>;

    fn candles_needed_for_setup(&self) -> (n: usize)
        ensures
            n == self.spec_candles_needed_for_setup(),
    ;

    /// Looks for a setup on `candles`, the latest candles of a series with
    /// the oldest first. Where there is one, the builder handed back holds
    /// the candle it was found on and its orientation.
    fn check_last_for_setup(&mut self, candles: &Vec<Candle>) -> (report: Option<SetupBuilder>)
        requires
            candles.len() >= old(self).spec_candles_needed_for_setup(),
        ensures
            report_view(report) == old(self).signal(candle_views(candles@)),
            *final(self) == old(self).after_check(candle_views(candles@)),
    ;

    /// An independent copy of the strategy in its present state.
    fn duplicate(&self) -> (s: Self)
        ensures
            s == *self,
    ;

    fn default_resolution_strategy(&self) -> (r: ResolutionStrategy)
        ensures
            r == self.spec_default_resolution_strategy(),
    ;

    fn orientation(&self) -> (o: StrategyOrientation)
        ensures
            o == self.spec_orientation(),
    ;

    fn interval(&self) -> (i: Interval)
        ensures
            i == self.spec_interval(),
    ;

    fn trading_days(&self) -> (days: TradingDays)
        ensures
            days == self.spec_trading_days(),
    ;

    /// The name under which the strategy is shown and stored.
    fn name(&self) -> (s: String)
        ensures
            s@ == self.spec_name(),
    ;
}

/// What a strategy reports that has found a long setup on the first candle
/// of its window.
pub open spec fn long_on_first(candles: Seq<CandleView>) -> SetupBuilderView {
    SetupBuilderView {
        symbol: None,
        candle: Some(candles[0]),
        interval: None,
        orientation: Some(StrategyOrientation::Long),
    }
}

fn build_trading_days() -> (days: TradingDays)
    ensures
        forall|d: Weekday| days.spec_contains(d),
{
    let mut set = TradingDays::new();
    set.insert(Weekday::Mon);
    set.insert(Weekday::Tue);
    set.insert(Weekday::Wed);
    set.insert(Weekday::Thu);
    set.insert(Weekday::Fri);
    set.insert(Weekday::Sat);
    set.insert(Weekday::Sun);
    set
}

/// Reports a long setup the first time it is asked and never again.
///
/// Meant for trying out the machinery around a strategy: it reads no
/// indicator, needs one candle, and trades on every day.
#[derive(Clone, Copy, Debug, PartialEq, Eq, Structural)]
pub struct TrueOnceStrategy {
    pub trading_days: TradingDays,
    pub triggered: bool,
}

impl HasMinLength for TrueOnceStrategy {
    open spec fn spec_min_length(&self) -> nat {
        1
    }

    fn min_length(&self) -> (n: usize) {
        1
    }
}

impl RequiresIndicators for TrueOnceStrategy {
    open spec fn spec_required_indicators(&self) -> Seq<IndicatorType> {
        Seq::empty()
    }

    fn required_indicators(&self) -> (kinds: Vec<IndicatorType>) {
        Vec::new()
    }
}

impl TrueOnceStrategy {
    pub fn new() -> (s: TrueOnceStrategy)
        ensures
            !s.triggered,
            forall|d: Weekday| s.trading_days.spec_contains(d),
    {
        TrueOnceStrategy { trading_days: build_trading_days(), triggered: false }
    }
}

impl TradingStrategy for TrueOnceStrategy {
    open spec fn spec_candles_needed_for_setup(&self) -> nat {
        1
    }

    open spec fn signal(&self, candles: Seq<CandleView>) -> Option<SetupBuilderView> {
        if self.triggered {
            None
        } else {
            Some(long_on_first(candles))
        }
    }

    open spec fn after_check(&self, candles: Seq<CandleView>) -> Self {
        TrueOnceStrategy { triggered: true, ..*self }
    }

    open spec fn spec_default_resolution_strategy(&self) -> ResolutionStrategy {
        ResolutionStrategy::Instant(InstantResolution)
    }

    open spec fn spec_orientation(&self) -> StrategyOrientation {
        StrategyOrientation::Long
    }

    open spec fn spec_interval(&self) -> Interval {
        Interval::Minute1
    }

    open spec fn spec_trading_days(&self) -> TradingDays {
        self.trading_days
    }

    open spec fn spec_name(&self) -> Seq<char> {
        "TrueOnceStrategy"@
    }

    fn candles_needed_for_setup(&self) -> (n: usize) {
        1
    }

    fn check_last_for_setup(&mut self, candles: &Vec<Candle>) -> (report: Option<SetupBuilder>) {
        if self.triggered {
            return None;
        }
        let sb = SetupBuilder::new().candle(&candles[0]).orientation(&StrategyOrientation::Long);
        self.triggered = true;
        Some(sb)
    }

    fn duplicate(&self) -> (s: Self) {
        *self
    }

    fn default_resolution_strategy(&self) -> (r: ResolutionStrategy) {
        ResolutionStrategy::Instant(InstantResolution)
    }

    fn orientation(&self) -> (o: StrategyOrientation) {
        StrategyOrientation::Long
    }

    fn interval(&self) -> (i: Interval) {
        Interval::Minute1
    }

    fn trading_days(&self) -> (days: TradingDays) {
        self.trading_days
    }

    fn name(&self) -> (s: String) {
        String::from_str("TrueOnceStrategy")
    }
}

/// Reports nothing the first time it is asked, a long setup the second time,
/// and nothing ever after.
///
/// Meant for trying out the machinery around a strategy: it reads no
/// indicator, needs one candle, and trades on every day.
#[derive(Clone, Copy, Debug, PartialEq, Eq, Structural)]
pub struct TrueTwiceStrategy {
    pub trading_days: TradingDays,
    pub triggered: bool,
    pub triggers: usize,
}

impl HasMinLength for TrueTwiceStrategy {
    open spec fn spec_min_length(&self) -> nat {
        1
    }

    fn min_length(&self) -> (n: usize) {
        1
    }
}

impl RequiresIndicators for TrueTwiceStrategy {
    open spec fn spec_required_indicators(&self) -> Seq<IndicatorType> {
        Seq::empty()
    }

    fn required_indicators(&self) -> (kinds: Vec<IndicatorType>) {
        Vec::new()
    }
}

impl TrueTwiceStrategy {
    pub fn new() -> (s: TrueTwiceStrategy)
        ensures
            !s.triggered,
            s.triggers == 0,
            forall|d: Weekday| s.trading_days.spec_contains(d),
    {
        TrueTwiceStrategy { trading_days: build_trading_days(), triggered: false, triggers: 0 }
    }
}

impl TradingStrategy for TrueTwiceStrategy {
    open spec fn spec_candles_needed_for_setup(&self) -> nat {
        1
    }

    open spec fn signal(&self, candles: Seq<CandleView>) -> Option<SetupBuilderView> {
        if self.triggered || self.triggers < 1 {
            None
        } else {
            Some(long_on_first(candles))
        }
    }

    open spec fn after_check(&self, candles: Seq<CandleView>) -> Self {
        if self.triggered {
            *self
        } else if self.triggers < 1 {
            TrueTwiceStrategy { triggers: (self.triggers + 1) as usize, ..*self }
        } else {
            TrueTwiceStrategy { triggered: true, ..*self }
        }
    }

    open spec fn spec_default_resolution_strategy(&self) -> ResolutionStrategy {
        ResolutionStrategy::Instant(InstantResolution)
    }

    open spec fn spec_orientation(&self) -> StrategyOrientation {
        StrategyOrientation::Long
    }

    open spec fn spec_interval(&self) -> Interval {
        Interval::Minute1
    }

    open spec fn spec_trading_days(&self) -> TradingDays {
        self.trading_days
    }

    open spec fn spec_name(&self) -> Seq<char> {
        "TrueTwiceStrategy"@
    }

    fn candles_needed_for_setup(&self) -> (n: usize) {
        1
    }

    fn check_last_for_setup(&mut self, candles: &Vec<Candle>) -> (report: Option<SetupBuilder>) {
        if self.triggered {
            return None;
        }
        if self.triggers < 1 {
            self.triggers += 1;
            return None;
        }
        let sb = SetupBuilder::new().candle(&candles[0]).orientation(&StrategyOrientation::Long);
        self.triggered = true;
        Some(sb)
    }

    fn duplicate(&self) -> (s: Self) {
        *self
    }

    fn default_resolution_strategy(&self) -> (r: ResolutionStrategy) {
        ResolutionStrategy::Instant(InstantResolution)
    }

    fn orientation(&self) -> (o: StrategyOrientation) {
        StrategyOrientation::Long
    }

    fn interval(&self) -> (i: Interval) {
        Interval::Minute1
    }

    fn trading_days(&self) -> (days: TradingDays) {
        self.trading_days
    }

    fn name(&self) -> (s: String) {
        String::from_str("TrueTwiceStrategy")
    }
}

} // verus!
