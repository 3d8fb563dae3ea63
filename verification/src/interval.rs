use vstd::prelude::*;
use vstd::string::*;

verus! {

/// The fixed duration of one candle.
#[derive(Clone, Copy, Debug, PartialEq, Eq, Hash, Structural)]
pub enum Interval {
    Minute1,
    Minute5,
    Minute15,
    Minute30,
    Hour1,
    Hour4,
    Hour12,
    Day1,
    Day5,
    Week1,
}

impl Interval {
    /// Length of the interval in seconds.
    pub open spec fn spec_seconds(self) -> int {
        match self {
            Interval::Minute1 => 60,
            Interval::Minute5 => 300,
            Interval::Minute15 => 900,
            Interval::Minute30 => 1_800,
            Interval::Hour1 => 3_600,
            Interval::Hour4 => 14_400,
            Interval::Hour12 => 43_200,
            Interval::Day1 => 86_400,
            Interval::Day5 => 432_000,
            Interval::Week1 => 604_800,
        }
    }

    /// The label under which the interval is shown and stored.
    pub open spec fn spec_label(self) -> Seq<char> {
        match self {
            Interval::Minute1 => "1m"@,
            Interval::Minute5 => "5m"@,
            Interval::Minute15 => "15m"@,
            Interval::Minute30 => "30m"@,
            Interval::Hour1 => "1h"@,
            Interval::Hour4 => "4h"@,
            Interval::Hour12 => "12h"@,
            Interval::Day1 => "1d"@,
            Interval::Day5 => "5d"@,
            Interval::Week1 => "1w"@,
        }
    }

    pub fn seconds(&self) -> (s: i64)
        ensures
            s == self.spec_seconds(),
            s > 0,
    {
        match self {
            Interval::Minute1 => 60,
            Interval::Minute5 => 5 * 60,
            Interval::Minute15 => 15 * 60,
            Interval::Minute30 => 30 * 60,
            Interval::Hour1 => 60 * 60,
            Interval::Hour4 => 4 * 60 * 60,
            Interval::Hour12 => 12 * 60 * 60,
            Interval::Day1 => 24 * 60 * 60,
            Interval::Day5 => 5 * 24 * 60 * 60,
            Interval::Week1 => 7 * 24 * 60 * 60,
        }
    }

    pub fn label(&self) -> (s: String)
        ensures
            s@ == self.spec_label(),
    {
        match self {
            Interval::Minute1 => String::from_str("1m"),
            Interval::Minute5 => String::from_str("5m"),
            Interval::Minute15 => String::from_str("15m"),
            Interval::Minute30 => String::from_str("30m"),
            Interval::Hour1 => String::from_str("1h"),
            Interval::Hour4 => String::from_str("4h"),
            Interval::Hour12 => String::from_str("12h"),
            Interval::Day1 => String::from_str("1d"),
            Interval::Day5 => String::from_str("5d"),
            Interval::Week1 => String::from_str("1w"),
        }
    }
}

} // verus!
