use crate::candle::{Candle, CandleView};
use crate::interval::Interval;
use vstd::prelude::*;
use vstd::string::*;

verus! {

/// The direction of a position.
#[derive(Clone, Copy, Debug, PartialEq, Eq, Hash, Structural)]
pub enum StrategyOrientation {
    Long,
    Short,
}

impl StrategyOrientation {
    /// The name under which the orientation is shown and stored.
    pub open spec fn spec_label(self) -> Seq<char> {
        match self {
            StrategyOrientation::Long => "Long"@,
            StrategyOrientation::Short => "Short"@,
        }
    }

    pub fn label(&self) -> (s: String)
        ensures
            s@ == self.spec_label(),
    {
        match self {
            StrategyOrientation::Long => String::from_str("Long"),
            StrategyOrientation::Short => String::from_str("Short"),
        }
    }
}

/// The moment a strategy fired: which series, on which candle, in which
/// direction. Once built it is only read.
#[derive(Debug, PartialEq, Eq)]
pub struct Setup {
    pub symbol: String,
    pub interval: Interval,
    pub candle: Candle,
    pub orientation: StrategyOrientation,
}

pub struct SetupView {
    pub symbol: Seq<char>,
    pub interval: Interval,
    pub candle: CandleView,
    pub orientation: StrategyOrientation,
}

impl View for Setup {
    type V = SetupView;

    open spec fn view(&self) -> SetupView {
        SetupView {
            symbol: self.symbol@,
            interval: self.interval,
            candle: self.candle@,
            orientation: self.orientation,
        }
    }
}

impl Setup {
    /// An independent copy of the setup.
    pub fn duplicate(&self) -> (s: Setup)
        ensures
            s@ == self@,
    {
        Setup {
            symbol: self.symbol.clone(),
            interval: self.interval,
            candle: self.candle.duplicate(),
            orientation: self.orientation,
        }
    }
}

/// The part of a setup that was not given to its builder.
#[derive(Clone, Copy, Debug, PartialEq, Eq, Structural)]
pub enum SetupError {
    MissingSymbol,
    MissingCandle,
    MissingInterval,
    MissingOrientation,
}

/// Collects the parts of a setup. A strategy fills in the candle and the
/// orientation; the setup finder adds the symbol and the interval.
#[derive(Debug, PartialEq, Eq)]
pub struct SetupBuilder {
    pub symbol: Option<String>,
    pub candle: Option<Candle>,
    pub interval: Option<Interval>,
    pub orientation: Option<StrategyOrientation>,
}

pub struct SetupBuilderView {
    pub symbol: Option<Seq<char>>,
    pub candle: Option<CandleView>,
    pub interval: Option<Interval>,
    pub orientation: Option<StrategyOrientation>,
}

impl View for SetupBuilder {
    type V = SetupBuilderView;

    open spec fn view(&self) -> SetupBuilderView {
        SetupBuilderView {
            symbol: match self.symbol {
                Some(s) => Some(s@),
                None => None,
            },
            candle: match self.candle {
                Some(c) => Some(c@),
                None => None,
            },
            interval: self.interval,
            orientation: self.orientation,
        }
    }
}

impl SetupBuilderView {
    /// The setup that the parts make up, or the first part that is missing,
    /// looked for in the order symbol, candle, interval, orientation.
    pub open spec fn build(self) -> Result<SetupView, SetupError> {
        if self.symbol is None {
            Err(SetupError::MissingSymbol)
        } else if self.candle is None {
            Err(SetupError::MissingCandle)
        } else if self.interval is None {
            Err(SetupError::MissingInterval)
        } else if self.orientation is None {
            Err(SetupError::MissingOrientation)
        } else {
            Ok(
                SetupView {
                    symbol: self.symbol->0,
                    interval: self.interval->0,
                    candle: self.candle->0,
                    orientation: self.orientation->0,
                },
            )
        }
    }
}

/// The view of a setup or of the reason why there is none.
pub open spec fn setup_result_view(r: Result<Setup, SetupError>) -> Result<SetupView, SetupError> {
    match r {
        Ok(s) => Ok(s@),
        Err(e) => Err(e),
    }
}

impl SetupBuilder {
    pub fn new() -> (b: SetupBuilder)
        ensures
            b@ == (SetupBuilderView {
                symbol: None,
                candle: None,
                interval: None,
                orientation: None,
            }),
    {
        SetupBuilder { symbol: None, candle: None, interval: None, orientation: None }
    }

    pub fn symbol(self, symbol: &str) -> (b: SetupBuilder)
        ensures
            b@ == (SetupBuilderView { symbol: Some(symbol@), ..self@ }),
    {
        let mut b = self;
        b.symbol = Some(String::from_str(symbol));
        b
    }

    pub fn candle(self, candle: &Candle) -> (b: SetupBuilder)
        ensures
            b@ == (SetupBuilderView { candle: Some(candle@), ..self@ }),
    {
        let mut b = self;
        b.candle = Some(candle.duplicate());
        b
    }

    pub fn interval(self, interval: &Interval) -> (b: SetupBuilder)
        ensures
            b@ == (SetupBuilderView { interval: Some(*interval), ..self@ }),
    {
        let mut b = self;
        b.interval = Some(*interval);
        b
    }

    pub fn orientation(self, orientation: &StrategyOrientation) -> (b: SetupBuilder)
        ensures
            b@ == (SetupBuilderView { orientation: Some(*orientation), ..self@ }),
    {
        let mut b = self;
        b.orientation = Some(*orientation);
        b
    }

    /// The setup, if every part was given; else the first part that is
    /// missing.
    pub fn build(&self) -> (r: Result<Setup, SetupError>)
        ensures
            setup_result_view(r) == self@.build(),
    {
        let symbol = match &self.symbol {
            Some(s) => s.clone(),
            None => {
                return Err(SetupError::MissingSymbol);
            },
        };
        let candle = match &self.candle {
            Some(c) => c.duplicate(),
            None => {
                return Err(SetupError::MissingCandle);
            },
        };
        let interval = match self.interval {
            Some(i) => i,
            None => {
                return Err(SetupError::MissingInterval);
            },
        };
        let orientation = match self.orientation {
            Some(o) => o,
            None => {
                return Err(SetupError::MissingOrientation);
            },
        };
        Ok(Setup { symbol, interval, candle, orientation })
    }
}

} // verus!
