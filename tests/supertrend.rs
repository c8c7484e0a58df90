use enex_signals::atr::{atr_phase, AtrPhase, DEFAULT_ATR_PERIOD};
use enex_signals::supertrend::{
    band_output, supertrend_step, BandBar, BandComparisons, BandOutput, BandState,
};

fn present(v: Option<f64>) -> Option<f64> {
    v.filter(|x| !x.is_nan())
}

fn run(
    high: &[Option<f64>],
    low: &[Option<f64>],
    close: &[Option<f64>],
    atr: &[Option<f64>],
    upper_mult: f64,
    lower_mult: f64,
) -> (Vec<Option<BandOutput<f64>>>, Vec<BandState<f64>>) {
    let mut s = BandState { direction: 1, upper: 0.0, lower: 0.0 };
    let mut outs = Vec::new();
    let mut states = Vec::new();
    for i in 0..high.len() {
        let vals = (present(high[i]), present(low[i]), present(close[i]), present(atr[i]));
        let prev_close = if i > 0 { present(close[i - 1]) } else { None };
        let (bar_valid, raw_upper, raw_lower, c) = match vals {
            (Some(h), Some(l), Some(c), Some(a)) => {
                let mid = (h + l) / 2.0;
                (true, mid + upper_mult * a, mid - lower_mult * a, c)
            }
            _ => (false, 0.0, 0.0, 0.0),
        };
        let pc = prev_close.unwrap_or(0.0);
        let cmp = BandComparisons {
            raw_upper_below_prev: raw_upper < s.upper,
            raw_upper_above_prev: raw_upper > s.upper,
            raw_lower_above_prev: raw_lower > s.lower,
            raw_lower_below_prev: raw_lower < s.lower,
            prev_close_above_upper: pc > s.upper,
            prev_close_below_lower: pc < s.lower,
            close_above_upper: c > s.upper,
            close_below_lower: c < s.lower,
        };
        let bar = BandBar {
            first: i == 0,
            bar_valid,
            prev_close_valid: prev_close.is_some(),
            raw_upper,
            raw_lower,
        };
        let (next, out) = supertrend_step(s, bar, cmp);
        s = next;
        outs.push(out);
        states.push(s);
    }
    (outs, states)
}

fn some(v: &[f64]) -> Vec<Option<f64>> {
    v.iter().map(|&x| Some(x)).collect()
}

#[test]
fn scenario_nan_high_skips_bar() {
    let high = vec![Some(10.0), Some(11.0), Some(f64::NAN), Some(9.0)];
    let low = some(&[8.0, 9.0, 8.0, 7.0]);
    let close = some(&[9.0, 10.5, 9.5, 7.5]);
    let atr = some(&[1.0, 1.0, 1.0, 1.0]);
    let (outs, states) = run(&high, &low, &close, &atr, 1.0, 1.0);
    assert_eq!(outs.len(), 4);
    assert_eq!(
        outs[0],
        Some(BandOutput { direction: 1, long: Some(8.0), short: None, trend: 8.0 })
    );
    assert_eq!(
        outs[1],
        Some(BandOutput { direction: 1, long: Some(9.0), short: None, trend: 9.0 })
    );
    assert_eq!(outs[2], None);
    assert_eq!(states[2], states[1]);
    assert_eq!(states[1], BandState { direction: 1, upper: 10.0, lower: 9.0 });
    assert_eq!(
        outs[3],
        Some(BandOutput { direction: -1, long: None, short: Some(9.0), trend: 9.0 })
    );
}

#[test]
fn missing_previous_close_gives_null_bar() {
    let high = some(&[10.0, 11.0, 12.0]);
    let low = some(&[8.0, 9.0, 10.0]);
    let close = vec![Some(9.0), None, Some(11.0)];
    let atr = some(&[1.0, 1.0, 1.0]);
    let (outs, states) = run(&high, &low, &close, &atr, 1.0, 1.0);
    assert_eq!(outs[1], None);
    assert_eq!(outs[2], None);
    assert_eq!(states[2], states[0]);
}

#[test]
fn upper_band_sticks_until_breakout() {
    let high = some(&[10.0, 12.0, 12.0]);
    let low = some(&[8.0, 10.0, 10.0]);
    let close = some(&[9.0, 9.5, 9.5]);
    let atr = some(&[1.0, 1.0, 1.0]);
    let (_, states) = run(&high, &low, &close, &atr, 1.0, 1.0);
    // bar 1's raw upper band is 12, above the carried 10: the band stays
    assert_eq!(states[1].upper, 10.0);
    assert_eq!(states[1].lower, 10.0);
    assert_eq!(states[2].upper, 10.0);
}

#[test]
fn non_null_outputs_split_by_direction() {
    let high = some(&[10.0, 11.0, 9.0, 8.0, 12.0, 13.0]);
    let low = some(&[8.0, 9.0, 7.0, 6.0, 10.0, 11.0]);
    let close = some(&[9.0, 10.5, 7.5, 6.5, 11.5, 12.5]);
    let atr = some(&[1.0, 1.0, 1.0, 1.0, 1.0, 1.0]);
    let (outs, _) = run(&high, &low, &close, &atr, 2.0, 1.5);
    let mut seen_down = false;
    for o in outs.into_iter().flatten() {
        if o.direction > 0 {
            assert_eq!(o.long, Some(o.trend));
            assert_eq!(o.short, None);
        } else {
            seen_down = true;
            assert_eq!(o.short, Some(o.trend));
            assert_eq!(o.long, None);
        }
    }
    assert!(seen_down);
}

#[test]
fn flip_up_clamps_lower_band() {
    let s = BandState { direction: -1, upper: 10.0, lower: 8.0 };
    let bar = BandBar { first: false, bar_valid: true, prev_close_valid: true, raw_upper: 13.0, raw_lower: 7.0 };
    let cmp = BandComparisons {
        raw_upper_below_prev: false,
        raw_upper_above_prev: true,
        raw_lower_above_prev: false,
        raw_lower_below_prev: true,
        prev_close_above_upper: false,
        prev_close_below_lower: true,
        close_above_upper: true,
        close_below_lower: false,
    };
    let (next, out) = supertrend_step(s, bar, cmp);
    assert_eq!(next, BandState { direction: 1, upper: 10.0, lower: 8.0 });
    assert_eq!(out, Some(BandOutput { direction: 1, long: Some(8.0), short: None, trend: 8.0 }));
}

#[test]
fn band_output_by_direction() {
    assert_eq!(band_output(1, 5i64, 3i64), BandOutput { direction: 1, long: Some(3), short: None, trend: 3 });
    assert_eq!(band_output(-1, 5i64, 3i64), BandOutput { direction: -1, long: None, short: Some(5), trend: 5 });
    assert_eq!(band_output(0, 5i64, 3i64), BandOutput { direction: 0, long: None, short: None, trend: 5 });
}

#[test]
fn atr_phases_around_the_window() {
    let p = DEFAULT_ATR_PERIOD as usize;
    assert_eq!(atr_phase(0, p), AtrPhase::Warmup);
    assert_eq!(atr_phase(12, p), AtrPhase::Warmup);
    assert_eq!(atr_phase(13, p), AtrPhase::Seed);
    assert_eq!(atr_phase(14, p), AtrPhase::Smoothed);
    assert_eq!(atr_phase(0, 1), AtrPhase::Seed);
    assert_eq!(atr_phase(1, 1), AtrPhase::Smoothed);
}
