use vstd::prelude::*;

verus! {

/// Number of raw units that make up one whole.
pub const DECIMAL_SCALE: i64 = 100_000_000;

/// Quotient of `a` by a positive `b`, rounded toward zero.
pub open spec fn trunc_div(a: int, b: int) -> int
    recommends
        b > 0,
{
    if a >= 0 {
        a / b
    } else {
        -((-a) / b)
    }
}

/// A decimal number in fixed point: `raw` counts units of 10⁻⁸.
///
/// Prices, balances, quantities and indicator values are all carried in this
/// form, so that every computation on them is exact integer arithmetic.
#[derive(Clone, Copy, Debug, PartialEq, Eq, Hash, Structural)]
pub struct Decimal {
    pub raw: i64,
}

impl Decimal {
    /// The value that `self` divided by `divisor` has, where it is defined:
    /// the divisor must be positive and the quotient must fit.
    pub open spec fn spec_divided_by(self, divisor: Decimal) -> Option<Decimal> {
        if divisor.raw <= 0 {
            None
        } else {
            let q = trunc_div(self.raw * DECIMAL_SCALE, divisor.raw as int);
            if i64::MIN <= q <= i64::MAX {
                Some(Decimal { raw: q as i64 })
            } else {
                None
            }
        }
    }

    /// `percent` hundredths of `self`, rounded toward zero.
    pub open spec fn spec_percent(self, percent: u8) -> Decimal {
        Decimal { raw: trunc_div(self.raw * percent, 100) as i64 }
    }

    pub fn new(raw: i64) -> (d: Decimal)
        ensures
            d.raw == raw,
    {
        Decimal { raw }
    }

    /// The decimal that stands for `whole`, if it is in range.
    pub fn from_whole(whole: i64) -> (d: Option<Decimal>)
        ensures
            d.is_some() <==> i64::MIN <= whole * DECIMAL_SCALE <= i64::MAX,
            d matches Some(v) ==> v.raw == whole * DECIMAL_SCALE,
    {
        proof {
            lemma_product_in_range(whole as int, DECIMAL_SCALE as int, DECIMAL_SCALE as int);
        }
        let wide: i128 = (whole as i128) * (DECIMAL_SCALE as i128);
        if wide < i64::MIN as i128 || wide > i64::MAX as i128 {
            None
        } else {
            Some(Decimal { raw: wide as i64 })
        }
    }

    /// Half of `self`, rounded toward zero.
    pub fn half(self) -> (h: Decimal)
        ensures
            h.raw == trunc_div(self.raw as int, 2),
    {
        Decimal { raw: self.raw / 2 }
    }

    /// `self` divided by `divisor`, rounded toward zero.
    pub fn divided_by(self, divisor: Decimal) -> (q: Option<Decimal>)
        ensures
            q == self.spec_divided_by(divisor),
    {
        if divisor.raw <= 0 {
            return None;
        }
        proof {
            lemma_product_in_range(self.raw as int, DECIMAL_SCALE as int, DECIMAL_SCALE as int);
        }
        let wide: i128 = (self.raw as i128) * (DECIMAL_SCALE as i128);
        let q: i128 = wide / (divisor.raw as i128);
        if q < i64::MIN as i128 || q > i64::MAX as i128 {
            None
        } else {
            Some(Decimal { raw: q as i64 })
        }
    }

    /// `percent` hundredths of `self`, rounded toward zero.
    pub fn percent(self, percent: u8) -> (p: Decimal)
        requires
            percent <= 100,
        ensures
            p == self.spec_percent(percent),
    {
        proof {
            lemma_product_in_range(self.raw as int, percent as int, 100);
        }
        let wide: i128 = (self.raw as i128) * (percent as i128);
        let q: i128 = wide / 100;
        proof {
            lemma_percent_in_range(self.raw as int, percent as int);
        }
        Decimal { raw: q as i64 }
    }
}

/// The product of a 64-bit value and a small non-negative factor stays well
/// inside 128 bits.
pub proof fn lemma_product_in_range(a: int, b: int, bound: int)
    requires
        i64::MIN <= a <= i64::MAX,
        0 <= b <= bound,
    ensures
        i64::MIN * bound <= a * b <= i64::MAX * bound,
{
    assert(i64::MIN * bound <= a * b <= i64::MAX * bound) by (nonlinear_arith)
        requires
            i64::MIN <= a <= i64::MAX,
            0 <= b <= bound,
    ;
}

/// A hundredth-part of a value is no larger in magnitude than the value.
pub proof fn lemma_percent_in_range(raw: int, percent: int)
    requires
        0 <= percent <= 100,
    ensures
        raw >= 0 ==> 0 <= trunc_div(raw * percent, 100) <= raw,
        raw <= 0 ==> raw <= trunc_div(raw * percent, 100) <= 0,
{
    if raw >= 0 {
        assert(0 <= raw * percent <= raw * 100) by (nonlinear_arith)
            requires
                raw >= 0,
                0 <= percent <= 100,
        ;
        assert((raw * percent) / 100 <= raw) by {
            vstd::arithmetic::div_mod::lemma_div_is_ordered(raw * percent, raw * 100, 100);
            vstd::arithmetic::div_mod::lemma_div_multiples_vanish(raw, 100);
        }
    } else {
        let m = -raw;
        assert(raw * percent == -(m * percent)) by (nonlinear_arith)
            requires
                m == -raw,
        ;
        assert(0 <= m * percent <= m * 100) by (nonlinear_arith)
            requires
                m >= 0,
                0 <= percent <= 100,
        ;
        assert((m * percent) / 100 <= m) by {
            vstd::arithmetic::div_mod::lemma_div_is_ordered(m * percent, m * 100, 100);
            vstd::arithmetic::div_mod::lemma_div_multiples_vanish(m, 100);
        }
    }
}

} // verus!
