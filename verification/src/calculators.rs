use crate::candle::{bars_of, candle_views, Bar, Candle};
use crate::decimal::{trunc_div, Decimal};
use crate::indicators::{Indicator, IndicatorType, SMA};
use crate::timeseries::IndicatorCalculator;
use vstd::prelude::*;

verus! {

/// The sum of the closing prices of `bars`, in raw units.
pub open spec fn sum_of_closes(bars: Seq<Bar>) -> int
    decreases bars.len(),
{
    if bars.len() == 0 {
        0
    } else {
        sum_of_closes(bars.drop_last()) + bars.last().close.raw
    }
}

/// The simple moving average of the close over the last `len` of `bars`,
/// rounded toward zero, if there are that many bars and `len` is not zero.
pub open spec fn closing_average(bars: Seq<Bar>, len: usize) -> Option<SMA> {
    if len == 0 || bars.len() < len {
        None
    } else {
        let window = bars.subrange(bars.len() - len, bars.len() as int);
        Some(SMA { value: Decimal { raw: trunc_div(sum_of_closes(window), len as int) as i64 }, len })
    }
}

/// A sum of 64-bit values is bounded by their number times the bounds of
/// one.
pub proof fn lemma_sum_of_closes_bounds(bars: Seq<Bar>)
    ensures
        bars.len() * i64::MIN <= sum_of_closes(bars) <= bars.len() * i64::MAX,
    decreases bars.len(),
{
    if bars.len() > 0 {
        lemma_sum_of_closes_bounds(bars.drop_last());
        let k = bars.drop_last().len() as int;
        assert((k + 1) * i64::MIN == k * i64::MIN + i64::MIN) by (nonlinear_arith);
        assert((k + 1) * i64::MAX == k * i64::MAX + i64::MAX) by (nonlinear_arith);
    } else {
        assert(0 * i64::MIN == 0 && 0 * i64::MAX == 0);
    }
}

/// The average of values that each fit in 64 bits fits in 64 bits.
pub proof fn lemma_average_in_range(sum: int, n: int)
    requires
        n > 0,
        n * i64::MIN <= sum <= n * i64::MAX,
    ensures
        i64::MIN <= trunc_div(sum, n) <= i64::MAX,
{
    if sum >= 0 {
        vstd::arithmetic::div_mod::lemma_div_is_ordered(sum, n * i64::MAX, n);
        assert(n * i64::MAX == i64::MAX * n) by (nonlinear_arith);
        vstd::arithmetic::div_mod::lemma_div_multiples_vanish(i64::MAX as int, n);
        vstd::arithmetic::div_mod::lemma_div_pos_is_pos(sum, n);
    } else {
        let m = -sum;
        assert(n * i64::MIN == -(0x8000_0000_0000_0000 * n)) by (nonlinear_arith);
        vstd::arithmetic::div_mod::lemma_div_is_ordered(m, 0x8000_0000_0000_0000 * n, n);
        vstd::arithmetic::div_mod::lemma_div_multiples_vanish(0x8000_0000_0000_0000, n);
        vstd::arithmetic::div_mod::lemma_div_pos_is_pos(m, n);
    }
}

/// Computes simple moving averages of the closing price, and nothing else.
#[derive(Clone, Copy, Debug, PartialEq, Eq, Structural)]
pub struct ClosingAverages;

impl IndicatorCalculator for ClosingAverages {
    /// Simple moving averages over at least one candle are supported.
    open spec fn supports(&self, kind: IndicatorType, bars: Seq<Bar>) -> bool {
        kind matches IndicatorType::SMA(len) && len > 0
    }

    /// A simple moving average has a value from the candle on at which
    /// enough history exists. Every other kind has none.
    open spec fn value(&self, kind: IndicatorType, bars: Seq<Bar>) -> Indicator {
        match kind {
            IndicatorType::SMA(len) => Indicator::SMA(closing_average(bars, len)),
            IndicatorType::EMA(_) => Indicator::EMA(None),
            IndicatorType::PMAR(_, _) => Indicator::PMAR(None),
            IndicatorType::PMARP(_, _, _) => Indicator::PMARP(None),
            IndicatorType::BBWP(_, _) => Indicator::BBWP(None),
        }
    }

    fn can_calculate(&self, kind: IndicatorType, candles: &Vec<Candle>) -> (ok: bool) {
        match kind {
            IndicatorType::SMA(len) => len > 0,
            _ => false,
        }
    }

    fn calculate(&self, kind: IndicatorType, candles: &Vec<Candle>, last: usize) -> (v: Indicator) {
        match kind {
            IndicatorType::SMA(len) => {
                if len == 0 || last + 1 < len {
                    assert(bars_of(candle_views(candles@)).take(last + 1).len() == last + 1);
                    return Indicator::SMA(None);
                }
                let ghost bars = bars_of(candle_views(candles@)).take(last + 1);
                let start: usize = last + 1 - len;
                let ghost window = bars.subrange(start as int, last + 1);
                let mut sum: i128 = 0;
                let mut j: usize = start;
                assert(window.take(0) =~= Seq::<Bar>::empty());
                while j <= last
                    invariant
                        last < candles.len(),
                        start <= j <= last + 1,
                        bars == bars_of(candle_views(candles@)).take(last + 1),
                        window == bars.subrange(start as int, last + 1),
                        sum == sum_of_closes(window.take(j - start)),
                    decreases last + 1 - j,
                {
                    proof {
                        let k = j - start;
                        assert(window.take(k + 1).drop_last() =~= window.take(k));
                        assert(window.take(k + 1).last().close == candles@[j as int].close);
                        lemma_sum_of_closes_bounds(window.take(k));
                        assert(k < usize::MAX);
                        assert(k * i64::MIN >= usize::MAX * i64::MIN) by (nonlinear_arith)
                            requires
                                0 <= k <= usize::MAX,
                        ;
                        assert(k * i64::MAX <= usize::MAX * i64::MAX) by (nonlinear_arith)
                            requires
                                0 <= k <= usize::MAX,
                        ;
                        assert(usize::MAX * i64::MAX <= 0xffff_ffff_ffff_ffff * 0x7fff_ffff_ffff_ffff) by (nonlinear_arith);
                        assert(usize::MAX * i64::MIN >= 0xffff_ffff_ffff_ffff * (-0x8000_0000_0000_0000)) by (nonlinear_arith);
                    }
                    sum = sum + candles[j].close.raw as i128;
                    j += 1;
                }
                proof {
                    assert(window.take(len as int) =~= window);
                    lemma_sum_of_closes_bounds(window);
                    lemma_average_in_range(sum as int, len as int);
                }
                let average: i128 = sum / (len as i128);
                Indicator::SMA(Some(SMA { value: Decimal { raw: average as i64 }, len }))
            },
            IndicatorType::EMA(_) => Indicator::EMA(None),
            IndicatorType::PMAR(_, _) => Indicator::PMAR(None),
            IndicatorType::PMARP(_, _, _) => Indicator::PMARP(None),
            IndicatorType::BBWP(_, _) => Indicator::BBWP(None),
        }
    }
}

} // verus!
