//! Per-bar trading signal sequencing and trend-band tracking over ordered
//! series: entry/exit conflict resolution, a position sequencer with
//! running position identifiers, expansion of position intervals into a
//! dense column, the average-true-range warm-up rule, and the SuperTrend
//! band and direction transition.

pub mod atr;
pub mod intervals;
pub mod signal;
pub mod supertrend;
