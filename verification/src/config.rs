//! Configuration of the poller: the durations that shape every window
//! and the pacing of the loop, gathered once at startup.

use vstd::prelude::*;

verus! {

/// How far back the cursor starts on the first iteration, in milliseconds.
pub const DEFAULT_STARTING_BACKFILL_MS: i64 = 7_200_000;

/// How long the loop sleeps between iterations, in milliseconds.
pub const DEFAULT_POLL_INTERVAL_MS: u64 = 3000;

/// Assumed maximum lag of the CDC log behind its writes, in milliseconds.
pub const DEFAULT_SAFETY_DELAY_MS: i64 = 300;

/// Maximum span of one query window, in milliseconds.
pub const DEFAULT_WINDOW_SPAN_MS: i64 = 1_800_000;

/// The durations that govern the poll loop, all in milliseconds.
#[derive(Clone, Copy, Debug)]
pub struct Config {
    /// How far before the first wall-clock sample the cursor starts.
    pub starting_backfill_ms: i64,
    /// Pause between two iterations of the loop.
    pub poll_interval_ms: u64,
    /// A window never reaches closer to the present than this.
    pub safety_delay_ms: i64,
    /// No window is wider than this.
    pub window_span_ms: i64,
}

impl Config {
    /// All durations are non-negative; a negative duration has no meaning here.
    pub open spec fn well_formed(self) -> bool {
        &&& self.starting_backfill_ms >= 0
        &&& self.safety_delay_ms >= 0
        &&& self.window_span_ms >= 0
    }

    /// Builds a configuration from the four durations.
    pub fn new(
        starting_backfill_ms: i64,
        poll_interval_ms: u64,
        safety_delay_ms: i64,
        window_span_ms: i64,
    ) -> (r: Config)
        requires
            starting_backfill_ms >= 0,
            safety_delay_ms >= 0,
            window_span_ms >= 0,
        ensures
            r.starting_backfill_ms == starting_backfill_ms,
            r.poll_interval_ms == poll_interval_ms,
            r.safety_delay_ms == safety_delay_ms,
            r.window_span_ms == window_span_ms,
            r.well_formed(),
    {
        Config { starting_backfill_ms, poll_interval_ms, safety_delay_ms, window_span_ms }
    }

    /// The defaults: a two-hour backfill, three-second pacing, a
    /// 300 ms safety margin and thirty-minute windows.
    pub fn defaults() -> (r: Config)
        ensures
            r.starting_backfill_ms == DEFAULT_STARTING_BACKFILL_MS,
            r.poll_interval_ms == DEFAULT_POLL_INTERVAL_MS,
            r.safety_delay_ms == DEFAULT_SAFETY_DELAY_MS,
            r.window_span_ms == DEFAULT_WINDOW_SPAN_MS,
            r.well_formed(),
    {
        Config {
            starting_backfill_ms: DEFAULT_STARTING_BACKFILL_MS,
            poll_interval_ms: DEFAULT_POLL_INTERVAL_MS,
            safety_delay_ms: DEFAULT_SAFETY_DELAY_MS,
            window_span_ms: DEFAULT_WINDOW_SPAN_MS,
        }
    }
}

} // verus!
