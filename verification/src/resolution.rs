use crate::candle::{candle_views, Candle, CandleView};
use crate::decimal::Decimal;
use crate::setup::{Setup, SetupView, StrategyOrientation};
use vstd::prelude::*;
use vstd::string::*;

verus! {

/// Why an exit policy could not answer.
#[derive(Clone, Copy, Debug, PartialEq, Eq, Structural)]
pub enum ResolutionError {
    /// Fewer candles were handed over than the policy reads.
    InsufficientCandles,
    /// The policy was asked before its initial values were set.
    NotInitialised,
}

/// What every exit policy answers: how many trailing candles it reads for
/// each of its two tests, and whether take-profit or stop-loss is reached on
/// a window of that many candles.
pub trait IsResolutionStrategy: Sized {
    spec fn spec_n_candles_take_profit(&self) -> nat;

    spec fn spec_n_candles_stop_loss(&self) -> nat;

    /// The policy once a position has been opened on `setup`.
    spec fn with_initial_values(&self, setup: SetupView) -> Result<Self, ResolutionError>;

    spec fn spec_take_profit_reached(
        &self,
        orientation: StrategyOrientation,
        candles: Seq<CandleView>,
    ) -> Result<bool, ResolutionError>;

    spec fn spec_stop_loss_reached(
        &self,
        orientation: StrategyOrientation,
        candles: Seq<CandleView>,
    ) -> Result<bool, ResolutionError>;

    fn n_candles_take_profit(&self) -> (n: usize)
        ensures
            n == self.spec_n_candles_take_profit(),
    ;

    fn n_candles_stop_loss(&self) -> (n: usize)
        ensures
            n == self.spec_n_candles_stop_loss(),
    ;

    /// Takes from `setup` what the tests will be held against. On failure
    /// the policy stays as it was.
    fn set_initial_values(&mut self, setup: &Setup) -> (r: Result<(), ResolutionError>)
        ensures
            match old(self).with_initial_values(setup@) {
                Ok(after) => r is Ok && *final(self) == after,
                Err(e) => r == Err::<(), ResolutionError>(e) && *final(self) == *old(self),
            },
    ;

    fn take_profit_reached(&self, orientation: &StrategyOrientation, candles: &[Candle]) -> (r:
        Result<bool, ResolutionError>)
        ensures
            r == self.spec_take_profit_reached(*orientation, candle_views(candles@)),
    ;

    fn stop_loss_reached(&self, orientation: &StrategyOrientation, candles: &[Candle]) -> (r:
        Result<bool, ResolutionError>)
        ensures
            r == self.spec_stop_loss_reached(*orientation, candle_views(candles@)),
    ;
}

/// Exits at once: both tests are met on the first candle after entry.
#[derive(Clone, Copy, Debug, PartialEq, Eq, Structural)]
pub struct InstantResolution;

impl IsResolutionStrategy for InstantResolution {
    open spec fn spec_n_candles_take_profit(&self) -> nat {
        1
    }

    open spec fn spec_n_candles_stop_loss(&self) -> nat {
        1
    }

    open spec fn with_initial_values(&self, setup: SetupView) -> Result<Self, ResolutionError> {
        Ok(*self)
    }

    open spec fn spec_take_profit_reached(
        &self,
        orientation: StrategyOrientation,
        candles: Seq<CandleView>,
    ) -> Result<bool, ResolutionError> {
        Ok(true)
    }

    open spec fn spec_stop_loss_reached(
        &self,
        orientation: StrategyOrientation,
        candles: Seq<CandleView>,
    ) -> Result<bool, ResolutionError> {
        Ok(true)
    }

    fn n_candles_take_profit(&self) -> (n: usize) {
        1
    }

    fn n_candles_stop_loss(&self) -> (n: usize) {
        1
    }

    fn set_initial_values(&mut self, setup: &Setup) -> (r: Result<(), ResolutionError>) {
        Ok(())
    }

    fn take_profit_reached(&self, orientation: &StrategyOrientation, candles: &[Candle]) -> (r:
        Result<bool, ResolutionError>) {
        Ok(true)
    }

    fn stop_loss_reached(&self, orientation: &StrategyOrientation, candles: &[Candle]) -> (r:
        Result<bool, ResolutionError>) {
        Ok(true)
    }
}

/// Exits once the close has moved a fixed distance away from the entry
/// price: `take_profit` in favour of the position, `stop_loss` against it.
/// The entry price is taken from the setup when the position is opened.
#[derive(Clone, Copy, Debug, PartialEq, Eq, Structural)]
pub struct FixedDistanceResolution {
    pub take_profit: Decimal,
    pub stop_loss: Decimal,
    pub entry_price: Option<Decimal>,
}

impl FixedDistanceResolution {
    pub fn new(take_profit: Decimal, stop_loss: Decimal) -> (r: FixedDistanceResolution)
        ensures
            r == (FixedDistanceResolution { take_profit, stop_loss, entry_price: None }),
    {
        FixedDistanceResolution { take_profit, stop_loss, entry_price: None }
    }

    /// Whether the last close of `candles` lies at least `distance` from the
    /// entry price, on the side that `favourable` names for `orientation`.
    pub open spec fn spec_moved(
        &self,
        orientation: StrategyOrientation,
        candles: Seq<CandleView>,
        distance: Decimal,
        favourable: bool,
    ) -> Result<bool, ResolutionError> {
        if candles.len() == 0 {
            Err(ResolutionError::InsufficientCandles)
        } else if self.entry_price is None {
            Err(ResolutionError::NotInitialised)
        } else {
            let entry = self.entry_price->0.raw as int;
            let close = candles.last().close.raw as int;
            let upward = (orientation == StrategyOrientation::Long) == favourable;
            if upward {
                Ok(close >= entry + distance.raw)
            } else {
                Ok(close <= entry - distance.raw)
            }
        }
    }

    fn moved(
        &self,
        orientation: &StrategyOrientation,
        candles: &[Candle],
        distance: Decimal,
        favourable: bool,
    ) -> (r: Result<bool, ResolutionError>)
        ensures
            r == self.spec_moved(*orientation, candle_views(candles@), distance, favourable),
    {
        if candles.len() == 0 {
            return Err(ResolutionError::InsufficientCandles);
        }
        match self.entry_price {
            None => Err(ResolutionError::NotInitialised),
            Some(entry) => {
                let close: i128 = candles[candles.len() - 1].close.raw as i128;
                let long: bool = match orientation {
                    StrategyOrientation::Long => true,
                    StrategyOrientation::Short => false,
                };
                if long == favourable {
                    Ok(close >= entry.raw as i128 + distance.raw as i128)
                } else {
                    Ok(close <= entry.raw as i128 - distance.raw as i128)
                }
            },
        }
    }
}

impl IsResolutionStrategy for FixedDistanceResolution {
    open spec fn spec_n_candles_take_profit(&self) -> nat {
        1
    }

    open spec fn spec_n_candles_stop_loss(&self) -> nat {
        1
    }

    open spec fn with_initial_values(&self, setup: SetupView) -> Result<Self, ResolutionError> {
        Ok(FixedDistanceResolution { entry_price: Some(setup.candle.close), ..*self })
    }

    open spec fn spec_take_profit_reached(
        &self,
        orientation: StrategyOrientation,
        candles: Seq<CandleView>,
    ) -> Result<bool, ResolutionError> {
        self.spec_moved(orientation, candles, self.take_profit, true)
    }

    open spec fn spec_stop_loss_reached(
        &self,
        orientation: StrategyOrientation,
        candles: Seq<CandleView>,
    ) -> Result<bool, ResolutionError> {
        self.spec_moved(orientation, candles, self.stop_loss, false)
    }

    fn n_candles_take_profit(&self) -> (n: usize) {
        1
    }

    fn n_candles_stop_loss(&self) -> (n: usize) {
        1
    }

    fn set_initial_values(&mut self, setup: &Setup) -> (r: Result<(), ResolutionError>) {
        self.entry_price = Some(setup.candle.close);
        Ok(())
    }

    fn take_profit_reached(&self, orientation: &StrategyOrientation, candles: &[Candle]) -> (r:
        Result<bool, ResolutionError>) {
        self.moved(orientation, candles, self.take_profit, true)
    }

    fn stop_loss_reached(&self, orientation: &StrategyOrientation, candles: &[Candle]) -> (r:
        Result<bool, ResolutionError>) {
        self.moved(orientation, candles, self.stop_loss, false)
    }
}

/// The exit policy attached to a trade.
#[derive(Clone, Copy, Debug, PartialEq, Eq, Structural)]
pub enum ResolutionStrategy {
    Instant(InstantResolution),
    FixedDistance(FixedDistanceResolution),
}

impl ResolutionStrategy {
    /// The name under which the policy is shown and stored.
    pub open spec fn spec_label(self) -> Seq<char> {
        match self {
            ResolutionStrategy::Instant(_) => "InstantResolution"@,
            ResolutionStrategy::FixedDistance(_) => "FixedDistanceResolution"@,
        }
    }

    pub fn label(&self) -> (s: String)
        ensures
            s@ == self.spec_label(),
    {
        match self {
            ResolutionStrategy::Instant(_) => String::from_str("InstantResolution"),
            ResolutionStrategy::FixedDistance(_) => String::from_str("FixedDistanceResolution"),
        }
    }
}

impl IsResolutionStrategy for ResolutionStrategy {
    open spec fn spec_n_candles_take_profit(&self) -> nat {
        match self {
            ResolutionStrategy::Instant(r) => r.spec_n_candles_take_profit(),
            ResolutionStrategy::FixedDistance(r) => r.spec_n_candles_take_profit(),
        }
    }

    open spec fn spec_n_candles_stop_loss(&self) -> nat {
        match self {
            ResolutionStrategy::Instant(r) => r.spec_n_candles_stop_loss(),
            ResolutionStrategy::FixedDistance(r) => r.spec_n_candles_stop_loss(),
        }
    }

    open spec fn with_initial_values(&self, setup: SetupView) -> Result<Self, ResolutionError> {
        match self {
            ResolutionStrategy::Instant(r) => match r.with_initial_values(setup) {
                Ok(after) => Ok(ResolutionStrategy::Instant(after)),
                Err(e) => Err(e),
            },
            ResolutionStrategy::FixedDistance(r) => match r.with_initial_values(setup) {
                Ok(after) => Ok(ResolutionStrategy::FixedDistance(after)),
                Err(e) => Err(e),
            },
        }
    }

    open spec fn spec_take_profit_reached(
        &self,
        orientation: StrategyOrientation,
        candles: Seq<CandleView>,
    ) -> Result<bool, ResolutionError> {
        match self {
            ResolutionStrategy::Instant(r) => r.spec_take_profit_reached(orientation, candles),
            ResolutionStrategy::FixedDistance(r) => r.spec_take_profit_reached(
                orientation,
                candles,
            ),
        }
    }

    open spec fn spec_stop_loss_reached(
        &self,
        orientation: StrategyOrientation,
        candles: Seq<CandleView>,
    ) -> Result<bool, ResolutionError> {
        match self {
            ResolutionStrategy::Instant(r) => r.spec_stop_loss_reached(orientation, candles),
            ResolutionStrategy::FixedDistance(r) => r.spec_stop_loss_reached(orientation, candles),
        }
    }

    fn n_candles_take_profit(&self) -> (n: usize) {
        match self {
            ResolutionStrategy::Instant(r) => r.n_candles_take_profit(),
            ResolutionStrategy::FixedDistance(r) => r.n_candles_take_profit(),
        }
    }

    fn n_candles_stop_loss(&self) -> (n: usize) {
        match self {
            ResolutionStrategy::Instant(r) => r.n_candles_stop_loss(),
            ResolutionStrategy::FixedDistance(r) => r.n_candles_stop_loss(),
        }
    }

    fn set_initial_values(&mut self, setup: &Setup) -> (r: Result<(), ResolutionError>) {
        match *self {
            ResolutionStrategy::Instant(inner) => {
                let mut inner = inner;
                let r = inner.set_initial_values(setup);
                if r.is_ok() {
                    *self = ResolutionStrategy::Instant(inner);
                }
                r
            },
            ResolutionStrategy::FixedDistance(inner) => {
                let mut inner = inner;
                let r = inner.set_initial_values(setup);
                if r.is_ok() {
                    *self = ResolutionStrategy::FixedDistance(inner);
                }
                r
            },
        }
    }

    fn take_profit_reached(&self, orientation: &StrategyOrientation, candles: &[Candle]) -> (r:
        Result<bool, ResolutionError>) {
        match self {
            ResolutionStrategy::Instant(r) => r.take_profit_reached(orientation, candles),
            ResolutionStrategy::FixedDistance(r) => r.take_profit_reached(orientation, candles),
        }
    }

    fn stop_loss_reached(&self, orientation: &StrategyOrientation, candles: &[Candle]) -> (r:
        Result<bool, ResolutionError>) {
        match self {
            ResolutionStrategy::Instant(r) => r.stop_loss_reached(orientation, candles),
            ResolutionStrategy::FixedDistance(r) => r.stop_loss_reached(orientation, candles),
        }
    }
}

} // verus!
