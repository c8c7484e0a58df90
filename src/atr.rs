use vstd::prelude::*;

verus! {

/// The smoothing period used when the caller gives none.
pub const DEFAULT_ATR_PERIOD: u32 = 14;

/// How the average true range is formed at a bar.
#[derive(Clone, Copy, Debug, PartialEq, Eq, Structural)]
pub enum AtrPhase {
    /// Inside the warm-up window: the true range is summed, no value yet.
    Warmup,
    /// The last bar of the window: the plain mean of the first `period`
    /// true ranges.
    Seed,
    /// After the window: `(prev * (period - 1) + tr) / period`.
    Smoothed,
}

/// Which rule gives the average true range at bar `i` for `period`.
pub fn atr_phase(i: usize, period: usize) -> (r: AtrPhase)
    requires
        period >= 1,
    ensures
        r == AtrPhase::Warmup <==> i + 1 < period,
        r == AtrPhase::Seed <==> i + 1 == period,
        r == AtrPhase::Smoothed <==> i + 1 > period,
{
    if i < period - 1 {
        AtrPhase::Warmup
    } else if i == period - 1 {
        AtrPhase::Seed
    } else {
        AtrPhase::Smoothed
    }
}

} // verus!
