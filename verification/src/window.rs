//! Window Calculator: derives the next half-open query range `[low, high)`
//! from the cursor and a wall-clock sample.

use vstd::prelude::*;
use crate::config::Config;
use crate::min_i;

verus! {

/// One half-open query range `[low, high)`, both bounds in milliseconds
/// since the epoch. `low` is inclusive, `high` exclusive; the pair lives
/// for a single iteration and is never persisted.
#[derive(Clone, Copy, Debug, PartialEq, Eq, Structural)]
pub struct Window {
    pub low: i64,
    pub high: i64,
}

/// The upper bound of the window that starts at `low` when the clock reads
/// `now`: one full span past the cursor, capped so the window never reaches
/// into the last `safety_delay_ms` before `now`, where writes may still be
/// in flight.
pub open spec fn window_high_spec(low: int, now: int, cfg: Config) -> int {
    min_i(low + cfg.window_span_ms, now - cfg.safety_delay_ms)
}

impl Window {
    /// A window that selects nothing: its lower bound has caught up with,
    /// or passed, its upper bound.
    pub open spec fn is_empty_spec(self) -> bool {
        self.low >= self.high
    }

    /// Tells whether this window selects nothing.
    pub fn is_empty(&self) -> (r: bool)
        ensures
            r == self.is_empty_spec(),
    {
        self.low >= self.high
    }
}

/// Computes the query window for one iteration. The bounds on `low` and
/// `now` only keep the two sums inside `i64`.
///
/// The result is pinned exactly: `high` is the smaller of `low` plus one
/// window span and `now` minus the safety delay. When the safe ceiling has
/// not yet passed the cursor, the window comes back empty or inverted,
/// which is expected, not an error.
pub fn compute_window(low: i64, now: i64, cfg: &Config) -> (w: Window)
    requires
        cfg.well_formed(),
        low + cfg.window_span_ms <= i64::MAX,
        now - cfg.safety_delay_ms >= i64::MIN,
    ensures
        w.low == low,
        w.high == window_high_spec(low as int, now as int, *cfg),
        now - cfg.safety_delay_ms <= low ==> w.is_empty_spec(),
{
    let candidate = low + cfg.window_span_ms;
    let safe_ceiling = now - cfg.safety_delay_ms;
    let high = if candidate >= safe_ceiling {
        safe_ceiling
    } else {
        candidate
    };
    Window { low, high }
}

/// The Window Calculator is a function of its inputs alone: two calls on
/// the same cursor and the same clock sample give the same upper bound.
pub proof fn lemma_window_deterministic(low1: int, now1: int, low2: int, now2: int, cfg: Config)
    requires
        low1 == low2,
        now1 == now2,
    ensures
        window_high_spec(low1, now1, cfg) == window_high_spec(low2, now2, cfg),
{
}

/// A window never reaches past `now` minus the safety delay: the region
/// where writes may still be landing stays out of every query.
pub proof fn lemma_window_respects_safety(low: int, now: int, cfg: Config)
    ensures
        window_high_spec(low, now, cfg) <= now - cfg.safety_delay_ms,
{
}

/// When the safe ceiling has not passed the cursor, the window collapses:
/// its upper bound does not exceed its lower bound.
pub proof fn lemma_window_collapses(low: int, now: int, cfg: Config)
    requires
        now - cfg.safety_delay_ms <= low,
    ensures
        window_high_spec(low, now, cfg) <= low,
{
}

} // verus!
