use crate::decimal::Decimal;
use vstd::prelude::*;

verus! {

/// The moving average that a derived indicator is built on.
#[derive(Clone, Copy, Debug, PartialEq, Eq, Hash, Structural)]
pub enum MAType {
    SMA,
    EMA,
    VWMA,
}

/// The kind of an indicator together with its parameters. Two kinds with
/// different parameters are different indicators and are stored side by side.
#[derive(Clone, Copy, Debug, PartialEq, Eq, Hash, Structural)]
pub enum IndicatorType {
    /// Simple moving average over `len` candles.
    SMA(usize),
    /// Exponential moving average over `len` candles.
    EMA(usize),
    /// Price to moving-average ratio: length and kind of the average.
    PMAR(usize, MAType),
    /// Percentile of the price to moving-average ratio: length, lookback and
    /// kind of the average.
    PMARP(usize, usize, MAType),
    /// Bollinger band width percentile: length and lookback.
    BBWP(usize, usize),
}

#[derive(Clone, Copy, Debug, PartialEq, Eq)]
pub struct SMA {
    pub value: Decimal,
    pub len: usize,
}

#[derive(Clone, Copy, Debug, PartialEq, Eq)]
pub struct EMA {
    pub value: Decimal,
    pub len: usize,
}

#[derive(Clone, Copy, Debug, PartialEq, Eq)]
pub struct PMAR {
    pub value: Decimal,
    pub len: usize,
    pub ma: Option<Decimal>,
}

#[derive(Clone, Copy, Debug, PartialEq, Eq)]
pub struct PMARP {
    pub value: Decimal,
    pub len: usize,
    pub lookback: usize,
}

#[derive(Clone, Copy, Debug, PartialEq, Eq)]
pub struct BBWP {
    pub value: Decimal,
    pub len: usize,
    pub lookback: usize,
    pub sma: Option<SMA>,
}

impl PMARP {
    pub fn new(value: Decimal, len: usize, lookback: usize) -> (p: PMARP)
        ensures
            p == (PMARP { value, len, lookback }),
    {
        PMARP { value, len, lookback }
    }
}

/// The value of one indicator on one candle. `None` inside a variant means
/// that the candle lies too early in the history for a value to exist.
#[derive(Clone, Copy, Debug, PartialEq, Eq)]
pub enum Indicator {
    SMA(Option<SMA>),
    EMA(Option<EMA>),
    PMAR(Option<PMAR>),
    PMARP(Option<PMARP>),
    BBWP(Option<BBWP>),
}

impl Indicator {
    pub open spec fn spec_as_sma(self) -> Option<SMA> {
        match self {
            Indicator::SMA(v) => v,
            _ => None,
        }
    }

    pub open spec fn spec_as_ema(self) -> Option<EMA> {
        match self {
            Indicator::EMA(v) => v,
            _ => None,
        }
    }

    pub open spec fn spec_as_pmar(self) -> Option<PMAR> {
        match self {
            Indicator::PMAR(v) => v,
            _ => None,
        }
    }

    pub open spec fn spec_as_pmarp(self) -> Option<PMARP> {
        match self {
            Indicator::PMARP(v) => v,
            _ => None,
        }
    }

    pub open spec fn spec_as_bbwp(self) -> Option<BBWP> {
        match self {
            Indicator::BBWP(v) => v,
            _ => None,
        }
    }

    /// The moving average held, if this is one and it has a value.
    pub fn as_sma(&self) -> (v: Option<SMA>)
        ensures
            v == self.spec_as_sma(),
    {
        match self {
            Indicator::SMA(v) => *v,
            _ => None,
        }
    }

    pub fn as_ema(&self) -> (v: Option<EMA>)
        ensures
            v == self.spec_as_ema(),
    {
        match self {
            Indicator::EMA(v) => *v,
            _ => None,
        }
    }

    pub fn as_pmar(&self) -> (v: Option<PMAR>)
        ensures
            v == self.spec_as_pmar(),
    {
        match self {
            Indicator::PMAR(v) => *v,
            _ => None,
        }
    }

    pub fn as_pmarp(&self) -> (v: Option<PMARP>)
        ensures
            v == self.spec_as_pmarp(),
    {
        match self {
            Indicator::PMARP(v) => *v,
            _ => None,
        }
    }

    pub fn as_bbwp(&self) -> (v: Option<BBWP>)
        ensures
            v == self.spec_as_bbwp(),
    {
        match self {
            Indicator::BBWP(v) => *v,
            _ => None,
        }
    }
}

} // verus!
