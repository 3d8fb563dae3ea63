use crate::bybit_ws_api::DEFAULT_SYMBOL;
use crate::interval::Interval;
use crate::timeseries::{IndicatorCalculator, TimeSeries, TimeSeriesView};
use vstd::prelude::*;
use vstd::string::*;

verus! {

/// Collects what an empty series is made from. What is not given takes a
/// default: the symbol `DEFAULT_SYMBOL`, the interval of one day, and
/// validation of added candles switched on.
pub struct TimeSeriesBuilder<C: IndicatorCalculator> {
    pub symbol: Option<String>,
    pub interval: Option<Interval>,
    pub validate_candles_on_add: bool,
    pub calculator: C,
}

impl<C: IndicatorCalculator> TimeSeriesBuilder<C> {
    pub open spec fn spec_symbol(&self) -> Seq<char> {
        match self.symbol {
            Some(s) => s@,
            None => DEFAULT_SYMBOL@,
        }
    }

    pub open spec fn spec_interval(&self) -> Interval {
        match self.interval {
            Some(i) => i,
            None => Interval::Day1,
        }
    }

    pub fn new(calculator: C) -> (b: TimeSeriesBuilder<C>)
        ensures
            b.symbol is None,
            b.interval is None,
            b.validate_candles_on_add,
            b.calculator == calculator,
    {
        TimeSeriesBuilder { symbol: None, interval: None, validate_candles_on_add: true, calculator }
    }

    pub fn symbol(self, symbol: String) -> (b: TimeSeriesBuilder<C>)
        ensures
            b.symbol == Some(symbol),
            b.interval == self.interval,
            b.validate_candles_on_add == self.validate_candles_on_add,
            b.calculator == self.calculator,
    {
        let mut b = self;
        b.symbol = Some(symbol);
        b
    }

    pub fn interval(self, interval: Interval) -> (b: TimeSeriesBuilder<C>)
        ensures
            b.symbol == self.symbol,
            b.interval == Some(interval),
            b.validate_candles_on_add == self.validate_candles_on_add,
            b.calculator == self.calculator,
    {
        let mut b = self;
        b.interval = Some(interval);
        b
    }

    pub fn validate_candles_on_add(self, validate: bool) -> (b: TimeSeriesBuilder<C>)
        ensures
            b.symbol == self.symbol,
            b.interval == self.interval,
            b.validate_candles_on_add == validate,
            b.calculator == self.calculator,
    {
        let mut b = self;
        b.validate_candles_on_add = validate;
        b
    }

    /// The empty series that the parts make up.
    pub fn build(self) -> (ts: TimeSeries<C>)
        ensures
            ts@ == (TimeSeriesView {
                symbol: self.spec_symbol(),
                interval: self.spec_interval(),
                candles: Seq::empty(),
                indicators: Seq::empty(),
                observers: Seq::empty(),
                validate: self.validate_candles_on_add,
            }),
            ts.calculator == self.calculator,
    {
        let symbol = match self.symbol {
            Some(s) => s,
            None => String::from_str(DEFAULT_SYMBOL),
        };
        let interval = match self.interval {
            Some(i) => i,
            None => Interval::Day1,
        };
        let mut ts = TimeSeries::new(symbol, interval, self.calculator);
        ts.validate_candles_on_add = self.validate_candles_on_add;
        ts
    }
}

} // verus!
