use crate::decimal::Decimal;
use crate::indicators::{Indicator, IndicatorType};
use vstd::prelude::*;

verus! {

/// The price data of one candle, without anything derived from it.
#[derive(Clone, Copy, Debug, PartialEq, Eq)]
pub struct Bar {
    pub timestamp: i64,
    pub open: Decimal,
    pub high: Decimal,
    pub low: Decimal,
    pub close: Decimal,
    pub volume: Decimal,
}

/// One fixed-duration price bar with the indicator values computed for it.
///
/// `timestamp` is the start of the bar in milliseconds since the Unix epoch.
/// `indicators` holds at most one entry that counts for each kind: where a
/// kind occurs more than once, the first entry is the one that is read.
#[derive(Debug, PartialEq, Eq)]
pub struct Candle {
    pub timestamp: i64,
    pub open: Decimal,
    pub high: Decimal,
    pub low: Decimal,
    pub close: Decimal,
    pub volume: Decimal,
    pub indicators: Vec<(IndicatorType, Indicator)>,
}

/// What a candle is to the contracts: its price data and a map from
/// indicator kind to value.
pub struct CandleView {
    pub timestamp: i64,
    pub open: Decimal,
    pub high: Decimal,
    pub low: Decimal,
    pub close: Decimal,
    pub volume: Decimal,
    pub indicators: Map<IndicatorType, Indicator>,
}

/// The map that a list of indicator entries stands for. An earlier entry
/// takes precedence over a later one of the same kind.
pub open spec fn entries_map(entries: Seq<(IndicatorType, Indicator)>) -> Map<
    IndicatorType,
    Indicator,
>
    decreases entries.len(),
{
    if entries.len() == 0 {
        Map::empty()
    } else {
        entries_map(entries.drop_first()).insert(entries[0].0, entries[0].1)
    }
}

/// The views of a sequence of candles, in order.
pub open spec fn candle_views(candles: Seq<Candle>) -> Seq<CandleView> {
    Seq::new(candles.len(), |i: int| candles[i]@)
}

/// The price data of a sequence of candle views, in order.
pub open spec fn bars_of(candles: Seq<CandleView>) -> Seq<Bar> {
    Seq::new(candles.len(), |i: int| candles[i].bar())
}

impl CandleView {
    pub open spec fn bar(self) -> Bar {
        Bar {
            timestamp: self.timestamp,
            open: self.open,
            high: self.high,
            low: self.low,
            close: self.close,
            volume: self.volume,
        }
    }

    /// The same candle with `value` recorded for `kind`.
    pub open spec fn with_indicator(self, kind: IndicatorType, value: Indicator) -> CandleView {
        CandleView { indicators: self.indicators.insert(kind, value), ..self }
    }
}

impl View for Candle {
    type V = CandleView;

    open spec fn view(&self) -> CandleView {
        CandleView {
            timestamp: self.timestamp,
            open: self.open,
            high: self.high,
            low: self.low,
            close: self.close,
            volume: self.volume,
            indicators: entries_map(self.indicators@),
        }
    }
}

/// A kind without an entry is not in the map.
pub proof fn lemma_entries_map_absent(entries: Seq<(IndicatorType, Indicator)>, kind: IndicatorType)
    requires
        forall|j: int| 0 <= j < entries.len() ==> (#[trigger] entries[j]).0 != kind,
    ensures
        !entries_map(entries).contains_key(kind),
    decreases entries.len(),
{
    if entries.len() > 0 {
        let rest = entries.drop_first();
        assert(entries[0].0 != kind);
        assert forall|j: int| 0 <= j < rest.len() implies (#[trigger] rest[j]).0 != kind by {
            assert(entries[j + 1].0 != kind);
        }
        lemma_entries_map_absent(rest, kind);
    }
}

/// The first entry of a kind decides what the map holds for it.
pub proof fn lemma_entries_map_first(entries: Seq<(IndicatorType, Indicator)>, i: int)
    requires
        0 <= i < entries.len(),
        forall|j: int| 0 <= j < i ==> (#[trigger] entries[j]).0 != entries[i].0,
    ensures
        entries_map(entries).contains_key(entries[i].0),
        entries_map(entries)[entries[i].0] == entries[i].1,
    decreases entries.len(),
{
    if i > 0 {
        let rest = entries.drop_first();
        assert(entries[0].0 != entries[i].0);
        assert forall|j: int| 0 <= j < i - 1 implies (#[trigger] rest[j]).0 != rest[i - 1].0 by {
            assert(entries[j + 1].0 != entries[i].0);
        }
        lemma_entries_map_first(rest, i - 1);
    }
}

/// Replacing the value of the first entry of a kind records that value in the
/// map and changes nothing else.
pub proof fn lemma_entries_map_update(
    entries: Seq<(IndicatorType, Indicator)>,
    i: int,
    value: Indicator,
)
    requires
        0 <= i < entries.len(),
        forall|j: int| 0 <= j < i ==> (#[trigger] entries[j]).0 != entries[i].0,
    ensures
        entries_map(entries.update(i, (entries[i].0, value))) == entries_map(entries).insert(
            entries[i].0,
            value,
        ),
    decreases entries.len(),
{
    let kind = entries[i].0;
    let updated = entries.update(i, (kind, value));
    if i == 0 {
        assert(updated.drop_first() == entries.drop_first());
        assert(entries_map(updated) == entries_map(entries).insert(kind, value));
    } else {
        let rest = entries.drop_first();
        assert(entries[0].0 != kind);
        assert forall|j: int| 0 <= j < i - 1 implies (#[trigger] rest[j]).0 != rest[i - 1].0 by {
            assert(entries[j + 1].0 != kind);
        }
        lemma_entries_map_update(rest, i - 1, value);
        assert(updated.drop_first() == rest.update(i - 1, (kind, value)));
        assert(entries_map(updated) == entries_map(entries).insert(kind, value));
    }
}

/// Appending an entry of a kind that has none yet records its value in the map
/// and changes nothing else.
pub proof fn lemma_entries_map_push(
    entries: Seq<(IndicatorType, Indicator)>,
    kind: IndicatorType,
    value: Indicator,
)
    requires
        forall|j: int| 0 <= j < entries.len() ==> (#[trigger] entries[j]).0 != kind,
    ensures
        entries_map(entries.push((kind, value))) == entries_map(entries).insert(kind, value),
    decreases entries.len(),
{
    let pushed = entries.push((kind, value));
    if entries.len() == 0 {
        assert(pushed.drop_first() == entries);
        assert(entries_map(pushed) == entries_map(entries).insert(kind, value));
    } else {
        let rest = entries.drop_first();
        assert(entries[0].0 != kind);
        assert forall|j: int| 0 <= j < rest.len() implies (#[trigger] rest[j]).0 != kind by {
            assert(entries[j + 1].0 != kind);
        }
        lemma_entries_map_push(rest, kind, value);
        assert(pushed.drop_first() == rest.push((kind, value)));
        assert(entries_map(pushed) == entries_map(entries).insert(kind, value));
    }
}

impl Candle {
    /// A candle with the given price data and no indicator values.
    pub fn new(
        timestamp: i64,
        open: Decimal,
        high: Decimal,
        low: Decimal,
        close: Decimal,
        volume: Decimal,
    ) -> (c: Candle)
        ensures
            c@ == (CandleView {
                timestamp,
                open,
                high,
                low,
                close,
                volume,
                indicators: Map::empty(),
            }),
    {
        Candle { timestamp, open, high, low, close, volume, indicators: Vec::new() }
    }

    /// A candle on which every price is `price` and the volume is zero.
    pub fn flat(timestamp: i64, price: Decimal) -> (c: Candle)
        ensures
            c@ == (CandleView {
                timestamp,
                open: price,
                high: price,
                low: price,
                close: price,
                volume: Decimal { raw: 0 },
                indicators: Map::empty(),
            }),
    {
        Candle::new(timestamp, price, price, price, price, Decimal { raw: 0 })
    }

    /// An independent copy of the candle.
    pub fn duplicate(&self) -> (c: Candle)
        ensures
            c@ == self@,
            c.indicators@ == self.indicators@,
    {
        let mut entries: Vec<(IndicatorType, Indicator)> = Vec::new();
        let mut i: usize = 0;
        while i < self.indicators.len()
            invariant
                i <= self.indicators.len(),
                entries@ == self.indicators@.take(i as int),
            decreases self.indicators.len() - i,
        {
            entries.push(self.indicators[i]);
            i += 1;
        }
        assert(entries@ == self.indicators@);
        Candle {
            timestamp: self.timestamp,
            open: self.open,
            high: self.high,
            low: self.low,
            close: self.close,
            volume: self.volume,
            indicators: entries,
        }
    }

    /// The value recorded for `kind`, if there is one.
    pub fn indicator(&self, kind: IndicatorType) -> (v: Option<Indicator>)
        ensures
            v == (if self@.indicators.contains_key(kind) {
                Some(self@.indicators[kind])
            } else {
                None
            }),
    {
        let mut i: usize = 0;
        while i < self.indicators.len()
            invariant
                i <= self.indicators.len(),
                forall|j: int| 0 <= j < i ==> (#[trigger] self.indicators@[j]).0 != kind,
            decreases self.indicators.len() - i,
        {
            if self.indicators[i].0 == kind {
                proof {
                    lemma_entries_map_first(self.indicators@, i as int);
                }
                return Some(self.indicators[i].1);
            }
            i += 1;
        }
        proof {
            lemma_entries_map_absent(self.indicators@, kind);
        }
        None
    }

    /// Records `value` for `kind`, in place of any value recorded before.
    pub fn insert_indicator(&mut self, kind: IndicatorType, value: Indicator)
        ensures
            final(self)@ == old(self)@.with_indicator(kind, value),
    {
        let mut i: usize = 0;
        while i < self.indicators.len()
            invariant
                i <= self.indicators.len(),
                *self == *old(self),
                forall|j: int| 0 <= j < i ==> (#[trigger] self.indicators@[j]).0 != kind,
            decreases self.indicators.len() - i,
        {
            if self.indicators[i].0 == kind {
                proof {
                    lemma_entries_map_update(self.indicators@, i as int, value);
                }
                self.indicators.set(i, (kind, value));
                return ;
            }
            i += 1;
        }
        proof {
            lemma_entries_map_push(self.indicators@, kind, value);
        }
        self.indicators.push((kind, value));
    }
}

} // verus!
