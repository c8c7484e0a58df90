use vstd::prelude::*;

verus! {

/// The band state carried from one valid bar to the next. The band values
/// are of any type: every decision about them arrives as a comparison.
#[derive(Clone, Copy, Debug, PartialEq, Eq)]
pub struct BandState<T> {
    pub direction: i32,
    pub upper: T,
    pub lower: T,
}

/// The four outputs of one valid bar. `long` is present only in an up
/// trend and `short` only in a down trend.
#[derive(Clone, Copy, Debug, PartialEq, Eq)]
pub struct BandOutput<T> {
    pub direction: i32,
    pub long: Option<T>,
    pub short: Option<T>,
    pub trend: T,
}

/// What one bar brings: whether its prices and range are all present, the
/// raw bands `mid + upper_mult * atr` and `mid - lower_mult * atr`, and
/// whether it is the first bar of the series.
#[derive(Clone, Copy, Debug, PartialEq, Eq)]
pub struct BandBar<T> {
    pub first: bool,
    pub bar_valid: bool,
    pub prev_close_valid: bool,
    pub raw_upper: T,
    pub raw_lower: T,
}

/// The comparisons of this bar's values against the carried bands.
#[derive(Clone, Copy, Debug, PartialEq, Eq)]
pub struct BandComparisons {
    /// `raw_upper < prev_upper`
    pub raw_upper_below_prev: bool,
    /// `raw_upper > prev_upper`
    pub raw_upper_above_prev: bool,
    /// `raw_lower > prev_lower`
    pub raw_lower_above_prev: bool,
    /// `raw_lower < prev_lower`
    pub raw_lower_below_prev: bool,
    /// previous close `> prev_upper`
    pub prev_close_above_upper: bool,
    /// previous close `< prev_lower`
    pub prev_close_below_lower: bool,
    /// current close `> prev_upper`
    pub close_above_upper: bool,
    /// current close `< prev_lower`
    pub close_below_lower: bool,
}

/// The state before the first bar: an up trend with both bands at `zero`.
pub open spec fn initial_band_state<T>(zero: T) -> BandState<T> {
    BandState { direction: 1, upper: zero, lower: zero }
}

/// A bar is used only when its own values and, past the first bar, the
/// previous close are all present.
pub open spec fn bar_usable<T>(bar: BandBar<T>) -> bool {
    bar.bar_valid && (bar.first || bar.prev_close_valid)
}

/// The upper band keeps its previous value unless the raw band tightens it
/// or the previous close broke above it.
pub open spec fn sticky_upper_takes_raw<T>(bar: BandBar<T>, c: BandComparisons) -> bool {
    bar.first || c.raw_upper_below_prev || c.prev_close_above_upper
}

/// The lower band keeps its previous value unless the raw band tightens it
/// or the previous close broke below it.
pub open spec fn sticky_lower_takes_raw<T>(bar: BandBar<T>, c: BandComparisons) -> bool {
    bar.first || c.raw_lower_above_prev || c.prev_close_below_lower
}

/// The direction: up on the first bar, up on a close above the previous
/// upper band, down on a close below the previous lower band, else kept.
pub open spec fn next_direction<T>(s: BandState<T>, bar: BandBar<T>, c: BandComparisons) -> i32 {
    if bar.first {
        1
    } else if c.close_above_upper {
        1
    } else if c.close_below_lower {
        -1i32
    } else {
        s.direction
    }
}

/// The upper band after the stickiness rule and, on a flip to a down
/// trend, the clamp to no higher than the previous upper band.
pub open spec fn next_upper<T>(s: BandState<T>, bar: BandBar<T>, c: BandComparisons) -> T {
    let d = next_direction(s, bar, c);
    if sticky_upper_takes_raw(bar, c) && !(d != s.direction && d < 0 && c.raw_upper_above_prev) {
        bar.raw_upper
    } else {
        s.upper
    }
}

/// The lower band after the stickiness rule and, on a flip to an up trend,
/// the clamp to no lower than the previous lower band.
pub open spec fn next_lower<T>(s: BandState<T>, bar: BandBar<T>, c: BandComparisons) -> T {
    let d = next_direction(s, bar, c);
    if sticky_lower_takes_raw(bar, c) && !(d != s.direction && d > 0 && c.raw_lower_below_prev) {
        bar.raw_lower
    } else {
        s.lower
    }
}

/// The outputs for a direction and a pair of bands: the trend line follows
/// the lower band in an up trend and the upper band otherwise.
pub open spec fn output_spec<T>(direction: i32, upper: T, lower: T) -> BandOutput<T> {
    BandOutput {
        direction,
        long: if direction > 0 {
            Some(lower)
        } else {
            None
        },
        short: if direction < 0 {
            Some(upper)
        } else {
            None
        },
        trend: if direction > 0 {
            lower
        } else {
            upper
        },
    }
}

/// Builds the outputs of a bar from its direction and final bands.
pub fn band_output<T: Copy>(direction: i32, upper: T, lower: T) -> (r: BandOutput<T>)
    ensures
        r == output_spec(direction, upper, lower),
        r.direction == direction,
        direction > 0 ==> r.trend == lower && r.long == Some(r.trend) && r.short is None,
        direction < 0 ==> r.trend == upper && r.short == Some(r.trend) && r.long is None,
{
    if direction > 0 {
        BandOutput { direction, long: Some(lower), short: None, trend: lower }
    } else if direction < 0 {
        BandOutput { direction, long: None, short: Some(upper), trend: upper }
    } else {
        BandOutput { direction, long: None, short: None, trend: upper }
    }
}

/// Advances the band tracker by one bar. An unusable bar yields no output
/// and leaves the state as it was, so the next usable bar continues from
/// the last usable one.
pub fn supertrend_step<T: Copy>(s: BandState<T>, bar: BandBar<T>, c: BandComparisons) -> (r: (
    BandState<T>,
    Option<BandOutput<T>>,
))
    ensures
        r == supertrend_step_spec(s, bar, c),
        !bar_usable(bar) ==> r.0 == s && r.1 is None,
        r.1 matches Some(o) ==> (o.direction > 0 ==> o.trend == r.0.lower && o.long == Some(o.trend)
            && o.short is None),
        r.1 matches Some(o) ==> (o.direction < 0 ==> o.trend == r.0.upper && o.short == Some(o.trend)
            && o.long is None),
{
    if !(bar.bar_valid && (bar.first || bar.prev_close_valid)) {
        return (s, None);
    }
    let mut upper = bar.raw_upper;
    let mut lower = bar.raw_lower;
    let mut upper_is_raw = true;
    let mut lower_is_raw = true;
    if !bar.first {
        if !(c.raw_upper_below_prev || c.prev_close_above_upper) {
            upper = s.upper;
            upper_is_raw = false;
        }
        if !(c.raw_lower_above_prev || c.prev_close_below_lower) {
            lower = s.lower;
            lower_is_raw = false;
        }
    }
    let direction: i32 = if bar.first {
        1
    } else if c.close_above_upper {
        1
    } else if c.close_below_lower {
        -1
    } else {
        s.direction
    };
    if direction != s.direction {
        // only a raw band can fall on the wrong side of the previous one
        if direction > 0 && lower_is_raw && c.raw_lower_below_prev {
            lower = s.lower;
        }
        if direction < 0 && upper_is_raw && c.raw_upper_above_prev {
            upper = s.upper;
        }
    }
    let out = band_output(direction, upper, lower);
    (BandState { direction, upper, lower }, Some(out))
}

/// A bar whose values are missing, or whose previous close is, yields no
/// output and is passed over: the bar after it steps from the state of the
/// last usable bar, exactly as if the gap were not there.
pub proof fn lemma_unusable_bar_skipped<T>(
    s: BandState<T>,
    gap: BandBar<T>,
    gap_cmp: BandComparisons,
    next: BandBar<T>,
    next_cmp: BandComparisons,
)
    requires
        !bar_usable(gap),
    ensures
        supertrend_step_spec(s, gap, gap_cmp).1 is None,
        supertrend_step_spec(supertrend_step_spec(s, gap, gap_cmp).0, next, next_cmp)
            == supertrend_step_spec(s, next, next_cmp),
{
}

/// The transition that `supertrend_step` makes.
pub open spec fn supertrend_step_spec<T>(s: BandState<T>, bar: BandBar<T>, c: BandComparisons) -> (
    BandState<T>,
    Option<BandOutput<T>>,
) {
    if !bar_usable(bar) {
        (s, None)
    } else {
        let d = next_direction(s, bar, c);
        let upper = next_upper(s, bar, c);
        let lower = next_lower(s, bar, c);
        (BandState { direction: d, upper, lower }, Some(output_spec(d, upper, lower)))
    }
}

} // verus!
