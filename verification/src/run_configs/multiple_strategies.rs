use crate::indicators::{IndicatorType, MAType};
use crate::interval::Interval;
use crate::strategy::TradingStrategy;
use indexmap::IndexSet;
use vstd::prelude::*;

verus! {

/// Candles of history that a series is given beyond what its strategies
/// need at the least.
pub const HISTORY_MARGIN: usize = 300;

/// An indicator kind written as a tuple of integers: which kind, the two
/// lengths, and the kind of moving average. Parts that a kind does not have
/// are zero.
pub type KindCode = (u8, usize, usize, u8);

/// `indexmap::IndexSet`: a set that keeps its items in the order in which
/// they were inserted.
#[verifier::external_type_specification]
#[verifier::external_body]
#[verifier::reject_recursive_types(T)]
#[verifier::reject_recursive_types(S)]
pub struct ExIndexSet<T, S>(IndexSet<T, S>);

/// The items of a set of interval codes, in insertion order.
pub uninterp spec fn interval_codes_in(set: IndexSet<u8>) -> Seq<u8>;

/// The items of a set of indicator kind codes, in insertion order.
pub uninterp spec fn kind_codes_in(set: IndexSet<KindCode>) -> Seq<KindCode>;

/// `IndexSet::new`: the new set holds nothing.
#[verifier::external_body]
fn new_interval_set() -> (set: IndexSet<u8>)
    ensures
        interval_codes_in(set) == Seq::<u8>::empty(),
{
    IndexSet::new()
}

/// `IndexSet::contains`: whether an item equal to `code` is in the set.
#[verifier::external_body]
fn interval_set_contains(set: &IndexSet<u8>, code: u8) -> (found: bool)
    ensures
        found == interval_codes_in(*set).contains(code),
{
    set.contains(&code)
}

/// `IndexSet::insert`: an item that the set holds already leaves the set
/// and its order as they are and gives `false`; any other item is put last
/// and gives `true`.
#[verifier::external_body]
fn interval_set_insert(set: &mut IndexSet<u8>, code: u8) -> (added: bool)
    ensures
        added == !interval_codes_in(*old(set)).contains(code),
        interval_codes_in(*final(set)) == (if added {
            interval_codes_in(*old(set)).push(code)
        } else {
            interval_codes_in(*old(set))
        }),
{
    set.insert(code)
}

/// `IndexSet::iter`: hands the items out in their order.
#[verifier::external_body]
fn interval_set_items(set: &IndexSet<u8>) -> (items: Vec<u8>)
    ensures
        items@ == interval_codes_in(*set),
{
    set.iter().copied().collect()
}

/// `IndexSet::new`: the new set holds nothing.
#[verifier::external_body]
fn new_kind_set() -> (set: IndexSet<KindCode>)
    ensures
        kind_codes_in(set) == Seq::<KindCode>::empty(),
{
    IndexSet::new()
}

/// `IndexSet::contains`: whether an item equal to `code` is in the set.
#[verifier::external_body]
fn kind_set_contains(set: &IndexSet<KindCode>, code: KindCode) -> (found: bool)
    ensures
        found == kind_codes_in(*set).contains(code),
{
    set.contains(&code)
}

/// `IndexSet::insert`: an item that the set holds already leaves the set
/// and its order as they are and gives `false`; any other item is put last
/// and gives `true`.
#[verifier::external_body]
fn kind_set_insert(set: &mut IndexSet<KindCode>, code: KindCode) -> (added: bool)
    ensures
        added == !kind_codes_in(*old(set)).contains(code),
        kind_codes_in(*final(set)) == (if added {
            kind_codes_in(*old(set)).push(code)
        } else {
            kind_codes_in(*old(set))
        }),
{
    set.insert(code)
}

/// `IndexSet::iter`: hands the items out in their order.
#[verifier::external_body]
fn kind_set_items(set: &IndexSet<KindCode>) -> (items: Vec<KindCode>)
    ensures
        items@ == kind_codes_in(*set),
{
    set.iter().copied().collect()
}

pub open spec fn interval_code(interval: Interval) -> u8 {
    match interval {
        Interval::Minute1 => 0,
        Interval::Minute5 => 1,
        Interval::Minute15 => 2,
        Interval::Minute30 => 3,
        Interval::Hour1 => 4,
        Interval::Hour4 => 5,
        Interval::Hour12 => 6,
        Interval::Day1 => 7,
        Interval::Day5 => 8,
        Interval::Week1 => 9,
    }
}

pub open spec fn ma_code(ma: MAType) -> u8 {
    match ma {
        MAType::SMA => 0,
        MAType::EMA => 1,
        MAType::VWMA => 2,
    }
}

pub open spec fn kind_code(kind: IndicatorType) -> KindCode {
    match kind {
        IndicatorType::SMA(len) => (0u8, len, 0usize, 0u8),
        IndicatorType::EMA(len) => (1u8, len, 0usize, 0u8),
        IndicatorType::PMAR(len, ma) => (2u8, len, 0usize, ma_code(ma)),
        IndicatorType::PMARP(len, lookback, ma) => (3u8, len, lookback, ma_code(ma)),
        IndicatorType::BBWP(len, lookback) => (4u8, len, lookback, 0u8),
    }
}

fn encode_interval(interval: Interval) -> (code: u8)
    ensures
        code == interval_code(interval),
{
    match interval {
        Interval::Minute1 => 0,
        Interval::Minute5 => 1,
        Interval::Minute15 => 2,
        Interval::Minute30 => 3,
        Interval::Hour1 => 4,
        Interval::Hour4 => 5,
        Interval::Hour12 => 6,
        Interval::Day1 => 7,
        Interval::Day5 => 8,
        Interval::Week1 => 9,
    }
}

fn decode_interval(code: u8) -> (interval: Option<Interval>)
    ensures
        forall|i: Interval| interval_code(i) == code ==> interval == Some(i),
{
    match code {
        0 => Some(Interval::Minute1),
        1 => Some(Interval::Minute5),
        2 => Some(Interval::Minute15),
        3 => Some(Interval::Minute30),
        4 => Some(Interval::Hour1),
        5 => Some(Interval::Hour4),
        6 => Some(Interval::Hour12),
        7 => Some(Interval::Day1),
        8 => Some(Interval::Day5),
        9 => Some(Interval::Week1),
        _ => None,
    }
}

fn encode_ma(ma: MAType) -> (code: u8)
    ensures
        code == ma_code(ma),
{
    match ma {
        MAType::SMA => 0,
        MAType::EMA => 1,
        MAType::VWMA => 2,
    }
}

fn decode_ma(code: u8) -> (ma: Option<MAType>)
    ensures
        forall|m: MAType| ma_code(m) == code ==> ma == Some(m),
{
    match code {
        0 => Some(MAType::SMA),
        1 => Some(MAType::EMA),
        2 => Some(MAType::VWMA),
        _ => None,
    }
}

fn encode_kind(kind: IndicatorType) -> (code: KindCode)
    ensures
        code == kind_code(kind),
{
    match kind {
        IndicatorType::SMA(len) => (0, len, 0, 0),
        IndicatorType::EMA(len) => (1, len, 0, 0),
        IndicatorType::PMAR(len, ma) => (2, len, 0, encode_ma(ma)),
        IndicatorType::PMARP(len, lookback, ma) => (3, len, lookback, encode_ma(ma)),
        IndicatorType::BBWP(len, lookback) => (4, len, lookback, 0),
    }
}

fn decode_kind(code: KindCode) -> (kind: Option<IndicatorType>)
    ensures
        forall|k: IndicatorType| kind_code(k) == code ==> kind == Some(k),
{
    let (tag, len, lookback, ma) = code;
    match tag {
        0 => Some(IndicatorType::SMA(len)),
        1 => Some(IndicatorType::EMA(len)),
        2 => match decode_ma(ma) {
            Some(m) => Some(IndicatorType::PMAR(len, m)),
            None => None,
        },
        3 => match decode_ma(ma) {
            Some(m) => Some(IndicatorType::PMARP(len, lookback, m)),
            None => None,
        },
        4 => Some(IndicatorType::BBWP(len, lookback)),
        _ => None,
    }
}

/// What the start of a strategy depends on: the interval it runs at, the
/// history it needs at the least, and the indicators it reads.
#[derive(Debug, PartialEq, Eq)]
pub struct StrategyProfile {
    pub interval: Interval,
    pub min_length: usize,
    pub required_indicators: Vec<IndicatorType>,
}

pub struct StrategyProfileView {
    pub interval: Interval,
    pub min_length: usize,
    pub required_indicators: Seq<IndicatorType>,
}

impl View for StrategyProfile {
    type V = StrategyProfileView;

    open spec fn view(&self) -> StrategyProfileView {
        StrategyProfileView {
            interval: self.interval,
            min_length: self.min_length,
            required_indicators: self.required_indicators@,
        }
    }
}

impl StrategyProfile {
    /// The profile of `strategy`.
    pub fn of<S: TradingStrategy>(strategy: &S) -> (profile: StrategyProfile)
        ensures
            profile@ == (StrategyProfileView {
                interval: strategy.spec_interval(),
                min_length: strategy.spec_min_length() as usize,
                required_indicators: strategy.spec_required_indicators(),
            }),
    {
        StrategyProfile {
            interval: strategy.interval(),
            min_length: strategy.min_length(),
            required_indicators: strategy.required_indicators(),
        }
    }
}

pub open spec fn profile_views(profiles: Seq<StrategyProfile>) -> Seq<StrategyProfileView> {
    Seq::new(profiles.len(), |i: int| profiles[i]@)
}

/// The items of `items` without repetitions, each where it occurs first.
pub open spec fn first_occurrences<T>(items: Seq<T>) -> Seq<T>
    decreases items.len(),
{
    if items.len() == 0 {
        Seq::empty()
    } else {
        let before = first_occurrences(items.drop_last());
        if before.contains(items.last()) {
            before
        } else {
            before.push(items.last())
        }
    }
}

/// The interval of each profile, in order.
pub open spec fn intervals_of(profiles: Seq<StrategyProfileView>) -> Seq<Interval> {
    Seq::new(profiles.len(), |i: int| profiles[i].interval)
}

/// The longest history that one of the profiles needs; zero for none.
pub open spec fn longest_min_length(profiles: Seq<StrategyProfileView>) -> nat
    decreases profiles.len(),
{
    if profiles.len() == 0 {
        0
    } else {
        let before = longest_min_length(profiles.drop_last());
        if profiles.last().min_length > before {
            profiles.last().min_length as nat
        } else {
            before
        }
    }
}

/// The indicators that the profiles running at `interval` read, profile
/// after profile, repetitions left in.
pub open spec fn kinds_for(profiles: Seq<StrategyProfileView>, interval: Interval) -> Seq<
    IndicatorType,
>
    decreases profiles.len(),
{
    if profiles.len() == 0 {
        Seq::empty()
    } else if profiles.last().interval == interval {
        kinds_for(profiles.drop_last(), interval) + profiles.last().required_indicators
    } else {
        kinds_for(profiles.drop_last(), interval)
    }
}

/// Every item occurs among the first occurrences.
pub proof fn lemma_first_occurrences_hold_all<T>(items: Seq<T>, x: T)
    requires
        items.contains(x),
    ensures
        first_occurrences(items).contains(x),
    decreases items.len(),
{
    let earlier = items.drop_last();
    let before = first_occurrences(earlier);
    let i = choose|i: int| 0 <= i < items.len() && items[i] == x;
    if i < earlier.len() {
        assert(earlier[i] == x);
        assert(earlier.contains(x));
        lemma_first_occurrences_hold_all(earlier, x);
        let j = choose|j: int| 0 <= j < before.len() && before[j] == x;
        assert(first_occurrences(items)[j] == x);
    } else {
        assert(x == items.last());
        if !before.contains(x) {
            assert(before.push(x)[before.len() as int] == x);
        }
    }
}

/// Taking first occurrences and renaming the items by a one-to-one function
/// can be done in either order.
pub proof fn lemma_first_occurrences_map<A, B>(items: Seq<A>, f: spec_fn(A) -> B)
    requires
        forall|a: A, b: A| #[trigger] f(a) == #[trigger] f(b) ==> a == b,
    ensures
        first_occurrences(items.map_values(f)) == first_occurrences(items).map_values(f),
    decreases items.len(),
{
    if items.len() == 0 {
        assert(first_occurrences(items.map_values(f)) =~= first_occurrences(items).map_values(f));
    } else {
        let earlier = items.drop_last();
        let before = first_occurrences(earlier);
        lemma_first_occurrences_map(earlier, f);
        assert(items.map_values(f).drop_last() =~= earlier.map_values(f));
        assert(items.map_values(f).last() == f(items.last()));
        let image = before.map_values(f);
        if before.contains(items.last()) {
            let j = choose|j: int| 0 <= j < before.len() && before[j] == items.last();
            assert(image[j] == f(items.last()));
        }
        if image.contains(f(items.last())) {
            let j = choose|j: int| 0 <= j < image.len() && image[j] == f(items.last());
            assert(f(before[j]) == f(items.last()));
            assert(before[j] == items.last());
        }
        assert(first_occurrences(items.map_values(f)) =~= first_occurrences(items).map_values(f));
    }
}

/// What is to be set up before the strategies start.
///
/// `intervals` names the series to build, one for each interval in use.
/// `history_len` is the number of candles to load into each of them.
/// `indicators[k]` lists what is to be registered on the series of
/// `intervals[k]`, and `strategy_series[j]` says which series the strategy of
/// profile `j` is to watch.
#[derive(Debug, PartialEq, Eq)]
pub struct StartPlan {
    pub intervals: Vec<Interval>,
    pub history_len: usize,
    pub indicators: Vec<Vec<IndicatorType>>,
    pub strategy_series: Vec<usize>,
}

/// Why no plan could be made.
#[derive(Clone, Copy, Debug, PartialEq, Eq, Structural)]
pub enum PlanError {
    /// The history to load is longer than can be counted.
    HistoryTooLong,
}

/// Whether `plan` is the plan for `profiles`: one series for each interval
/// in use, in the order in which the intervals first occur; on each series
/// the indicators that the strategies of its interval read, each once, in
/// the order in which they are first asked for; and each strategy on the
/// series of its interval.
pub open spec fn plans(plan: StartPlan, profiles: Seq<StrategyProfileView>) -> bool {
    &&& plan.intervals@ == first_occurrences(intervals_of(profiles))
    &&& plan.history_len == longest_min_length(profiles) + HISTORY_MARGIN
    &&& plan.indicators@.len() == plan.intervals@.len()
    &&& forall|k: int|
        0 <= k < plan.intervals@.len() ==> (#[trigger] plan.indicators@[k])@ == first_occurrences(
            kinds_for(profiles, plan.intervals@[k]),
        )
    &&& plan.strategy_series@.len() == profiles.len()
    &&& forall|j: int|
        0 <= j < profiles.len() ==> {
            &&& (#[trigger] plan.strategy_series@[j]) < plan.intervals@.len()
            &&& plan.intervals@[plan.strategy_series@[j] as int] == profiles[j].interval
        }
}

/// The intervals in use, each once, in the order in which they first occur,
/// and the longest history that a profile needs.
fn intervals_in_use(profiles: &Vec<StrategyProfile>) -> (r: (Vec<Interval>, usize))
    ensures
        r.0@ == first_occurrences(intervals_of(profile_views(profiles@))),
        r.1 == longest_min_length(profile_views(profiles@)),
{
    let ghost views = profile_views(profiles@);
    let ghost code = |i: Interval| interval_code(i);
    let mut intervals: IndexSet<u8> = new_interval_set();
    let mut min_len: usize = 0;
    let mut i: usize = 0;
    assert(intervals_of(views.take(0)).map_values(code) =~= Seq::<u8>::empty());
    assert(views.take(0) =~= Seq::<StrategyProfileView>::empty());
    while i < profiles.len()
        invariant
            i <= profiles.len(),
            views == profile_views(profiles@),
            code == (|i: Interval| interval_code(i)),
            interval_codes_in(intervals) == first_occurrences(
                intervals_of(views.take(i as int)).map_values(code),
            ),
            min_len == longest_min_length(views.take(i as int)),
        decreases profiles.len() - i,
    {
        proof {
            assert(views.take(i + 1).drop_last() =~= views.take(i as int));
            assert(views.take(i + 1).last() == profiles@[i as int]@);
            let now = intervals_of(views.take(i + 1)).map_values(code);
            assert(now.drop_last() =~= intervals_of(views.take(i as int)).map_values(code));
            assert(now.last() == interval_code(profiles@[i as int].interval));
        }
        let c: u8 = encode_interval(profiles[i].interval);
        if !interval_set_contains(&intervals, c) {
            interval_set_insert(&mut intervals, c);
        }
        if profiles[i].min_length > min_len {
            min_len = profiles[i].min_length;
        }
        i += 1;
    }
    assert(views.take(i as int) =~= views);
    proof {
        lemma_first_occurrences_map(intervals_of(views), code);
    }
    let codes = interval_set_items(&intervals);
    let ghost expected = first_occurrences(intervals_of(views));
    let mut listed: Vec<Interval> = Vec::new();
    let mut k: usize = 0;
    while k < codes.len()
        invariant
            k <= codes.len(),
            codes@ == expected.map_values(code),
            code == (|i: Interval| interval_code(i)),
            listed@ == expected.take(k as int),
        decreases codes.len() - k,
    {
        assert(codes@[k as int] == interval_code(expected[k as int]));
        match decode_interval(codes[k]) {
            Some(interval) => {
                listed.push(interval);
            },
            None => {
                assert(false);
            },
        }
        assert(expected.take(k + 1) =~= expected.take(k as int).push(expected[k as int]));
        k += 1;
    }
    assert(expected.take(k as int) =~= expected);
    (listed, min_len)
}

/// The indicators that the profiles running at `interval` read, each once,
/// in the order in which they are first asked for.
fn indicators_in_use(profiles: &Vec<StrategyProfile>, interval: Interval) -> (kinds: Vec<
    IndicatorType,
>)
    ensures
        kinds@ == first_occurrences(kinds_for(profile_views(profiles@), interval)),
{
    let ghost views = profile_views(profiles@);
    let ghost code = |k: IndicatorType| kind_code(k);
    let mut set: IndexSet<KindCode> = new_kind_set();
    let mut i: usize = 0;
    assert(views.take(0) =~= Seq::<StrategyProfileView>::empty());
    assert(kinds_for(views.take(0), interval).map_values(code) =~= Seq::<KindCode>::empty());
    while i < profiles.len()
        invariant
            i <= profiles.len(),
            views == profile_views(profiles@),
            code == (|k: IndicatorType| kind_code(k)),
            kind_codes_in(set) == first_occurrences(
                kinds_for(views.take(i as int), interval).map_values(code),
            ),
        decreases profiles.len() - i,
    {
        proof {
            assert(views.take(i + 1).drop_last() =~= views.take(i as int));
            assert(views.take(i + 1).last() == profiles@[i as int]@);
        }
        if profiles[i].interval == interval {
            let ghost before = kinds_for(views.take(i as int), interval);
            let ghost wanted = profiles@[i as int].required_indicators@;
            let mut j: usize = 0;
            assert(before + wanted.take(0) =~= before);
            while j < profiles[i].required_indicators.len()
                invariant
                    i < profiles.len(),
                    j <= wanted.len(),
                    wanted == profiles@[i as int].required_indicators@,
                    code == (|k: IndicatorType| kind_code(k)),
                    kind_codes_in(set) == first_occurrences(
                        (before + wanted.take(j as int)).map_values(code),
                    ),
                decreases wanted.len() - j,
            {
                proof {
                    let now = (before + wanted.take(j + 1)).map_values(code);
                    assert(now.drop_last() =~= (before + wanted.take(j as int)).map_values(code));
                    assert(now.last() == kind_code(wanted[j as int]));
                }
                let c: KindCode = encode_kind(profiles[i].required_indicators[j]);
                if !kind_set_contains(&set, c) {
                    kind_set_insert(&mut set, c);
                }
                j += 1;
            }
            assert(wanted.take(j as int) =~= wanted);
        }
        i += 1;
    }
    assert(views.take(i as int) =~= views);
    proof {
        lemma_first_occurrences_map(kinds_for(views, interval), code);
    }
    let codes = kind_set_items(&set);
    let ghost expected = first_occurrences(kinds_for(views, interval));
    let mut listed: Vec<IndicatorType> = Vec::new();
    let mut k: usize = 0;
    while k < codes.len()
        invariant
            k <= codes.len(),
            codes@ == expected.map_values(code),
            code == (|k: IndicatorType| kind_code(k)),
            listed@ == expected.take(k as int),
        decreases codes.len() - k,
    {
        assert(codes@[k as int] == kind_code(expected[k as int]));
        match decode_kind(codes[k]) {
            Some(kind) => {
                listed.push(kind);
            },
            None => {
                assert(false);
            },
        }
        assert(expected.take(k + 1) =~= expected.take(k as int).push(expected[k as int]));
        k += 1;
    }
    assert(expected.take(k as int) =~= expected);
    listed
}

/// Plans the start of the strategies described by `profiles`.
///
/// Fails only if the longest history needed plus the margin cannot be
/// counted.
pub fn plan_start(profiles: &Vec<StrategyProfile>) -> (r: Result<StartPlan, PlanError>)
    ensures
        r is Ok <==> longest_min_length(profile_views(profiles@)) + HISTORY_MARGIN <= usize::MAX,
        r matches Ok(plan) ==> plans(plan, profile_views(profiles@)),
        r matches Err(e) ==> e == PlanError::HistoryTooLong,
{
    let ghost views = profile_views(profiles@);
    let (intervals, min_len) = intervals_in_use(profiles);
    if min_len > usize::MAX - HISTORY_MARGIN {
        return Err(PlanError::HistoryTooLong);
    }
    let history_len: usize = min_len + HISTORY_MARGIN;

    let mut indicators: Vec<Vec<IndicatorType>> = Vec::new();
    let mut k: usize = 0;
    while k < intervals.len()
        invariant
            k <= intervals.len(),
            views == profile_views(profiles@),
            indicators.len() == k,
            forall|m: int|
                0 <= m < k ==> (#[trigger] indicators@[m])@ == first_occurrences(
                    kinds_for(views, intervals@[m]),
                ),
        decreases intervals.len() - k,
    {
        indicators.push(indicators_in_use(profiles, intervals[k]));
        k += 1;
    }

    let mut strategy_series: Vec<usize> = Vec::new();
    let mut j: usize = 0;
    while j < profiles.len()
        invariant
            j <= profiles.len(),
            views == profile_views(profiles@),
            intervals@ == first_occurrences(intervals_of(views)),
            strategy_series.len() == j,
            forall|m: int|
                0 <= m < j ==> {
                    &&& (#[trigger] strategy_series@[m]) < intervals@.len()
                    &&& intervals@[strategy_series@[m] as int] == views[m].interval
                },
        decreases profiles.len() - j,
    {
        let wanted = profiles[j].interval;
        proof {
            assert(intervals_of(views)[j as int] == wanted);
            assert(intervals_of(views).contains(wanted));
            lemma_first_occurrences_hold_all(intervals_of(views), wanted);
        }
        let mut at: usize = 0;
        while at < intervals.len() && intervals[at] != wanted
            invariant
                at <= intervals.len(),
                intervals@.contains(wanted),
                forall|m: int| 0 <= m < at ==> intervals@[m] != wanted,
            decreases intervals.len() - at,
        {
            at += 1;
        }
        strategy_series.push(at);
        j += 1;
    }
    Ok(StartPlan { intervals, history_len, indicators, strategy_series })
}

} // verus!
