//! Poll Loop: the state machine that owns the cursor. Each iteration it
//! plans a window, lets the caller run the query, and then either advances
//! the cursor and asks to sleep, or declares the run over. The clock, the
//! store and the sleeping themselves stay outside the library.

use vstd::prelude::*;
use crate::config::Config;
use crate::executor::QueryError;
use crate::executor::QueryOutcome;
use crate::rows::CdcRow;
use crate::window::Window;
use crate::window::compute_window;
use crate::window::window_high_spec;

verus! {

/// The loop's whole state: the next unconsumed instant, and the durations
/// it was configured with. Exactly one iteration at a time reads and
/// rewrites the cursor.
pub struct Poller {
    pub cursor: i64,
    pub config: Config,
}

/// What the driver must do after one iteration.
pub enum PollStep {
    /// Emit these rows in order, sleep `sleep_ms` milliseconds, poll again.
    Continue { rows: Vec<CdcRow>, sleep_ms: u64 },
    /// The iteration failed; report the error and stop for good.
    Fatal(QueryError),
}

/// The cursor after one successful iteration that started at `c` and
/// sampled the clock at `now`: the upper bound of that iteration's window.
pub open spec fn next_cursor(c: int, now: int, cfg: Config) -> int {
    window_high_spec(c, now, cfg)
}

/// The cursor after the first `i` successful iterations, starting from
/// `c0`, when iteration `k` sampled the clock at `nows[k]`.
pub open spec fn cursor_after(c0: int, nows: Seq<int>, i: int, cfg: Config) -> int
    decreases i,
{
    if i <= 0 {
        c0
    } else {
        next_cursor(cursor_after(c0, nows, i - 1, cfg), nows[i - 1], cfg)
    }
}

impl Poller {
    /// The configuration the loop runs under makes sense as durations.
    pub open spec fn well_formed(self) -> bool {
        self.config.well_formed()
    }

    /// INIT: the cursor starts one backfill span before the first clock
    /// sample, so the first windows re-read recent history.
    pub fn new(now: i64, config: Config) -> (r: Poller)
        requires
            config.well_formed(),
            now - config.starting_backfill_ms >= i64::MIN,
        ensures
            r.cursor == now - config.starting_backfill_ms,
            r.config == config,
            r.well_formed(),
    {
        Poller { cursor: now - config.starting_backfill_ms, config }
    }

    /// POLLING, first half: the window this iteration will query, starting
    /// exactly at the cursor.
    pub fn next_window(&self, now: i64) -> (w: Window)
        requires
            self.well_formed(),
            self.cursor + self.config.window_span_ms <= i64::MAX,
            now - self.config.safety_delay_ms >= i64::MIN,
        ensures
            w.low == self.cursor,
            w.high == window_high_spec(self.cursor as int, now as int, self.config),
    {
        compute_window(self.cursor, now, &self.config)
    }

    /// POLLING, second half. On a completed query the rows pass through
    /// unchanged and in order — nulls and all — the cursor advances to the
    /// window's upper bound, and the driver is told to sleep one poll
    /// interval. On a failed query nothing moves and the step is fatal.
    pub fn apply_outcome(&mut self, window: Window, outcome: QueryOutcome) -> (r: PollStep)
        ensures
            final(self).config == old(self).config,
            (match outcome {
                QueryOutcome::Completed(rows) => final(self).cursor == window.high && (
                r matches PollStep::Continue { rows: emitted, sleep_ms } && emitted@ == rows@
                    && sleep_ms == old(self).config.poll_interval_ms),
                QueryOutcome::Failed(e) => final(self).cursor == old(self).cursor && (
                r matches PollStep::Fatal(reported) && reported.detail@ == e.detail@),
            }),
    {
        match outcome {
            QueryOutcome::Completed(rows) => {
                self.cursor = window.high;
                PollStep::Continue { rows, sleep_ms: self.config.poll_interval_ms }
            },
            QueryOutcome::Failed(e) => PollStep::Fatal(e),
        }
    }
}

/// In every run of successful iterations, each cursor value is exactly the
/// window bound computed from its predecessor and that iteration's clock
/// sample.
pub proof fn lemma_cursor_tracks_window(c0: int, nows: Seq<int>, cfg: Config)
    ensures
        forall|i: int|
            0 <= i < nows.len() ==> #[trigger] cursor_after(c0, nows, i + 1, cfg)
                == window_high_spec(cursor_after(c0, nows, i, cfg), nows[i], cfg),
{
    assert forall|i: int| 0 <= i < nows.len() implies #[trigger] cursor_after(c0, nows, i + 1, cfg)
        == window_high_spec(cursor_after(c0, nows, i, cfg), nows[i], cfg) by {
        assert(cursor_after(c0, nows, i + 1, cfg) == next_cursor(
            cursor_after(c0, nows, i, cfg),
            nows[i],
            cfg,
        ));
    }
}

/// Cursor monotonicity. Across any run of successful iterations in which
/// every clock sample left the safety margin behind the cursor — the loop
/// slept long enough, and the clock did not jump back — the cursor values
/// never decrease.
pub proof fn lemma_cursor_monotonic(c0: int, nows: Seq<int>, cfg: Config)
    requires
        cfg.well_formed(),
        forall|i: int|
            0 <= i < nows.len() ==> nows[i] - cfg.safety_delay_ms >= #[trigger] cursor_after(
                c0,
                nows,
                i,
                cfg,
            ),
    ensures
        forall|i: int|
            0 <= i < nows.len() ==> #[trigger] cursor_after(c0, nows, i, cfg) <= cursor_after(
                c0,
                nows,
                i + 1,
                cfg,
            ),
{
    assert forall|i: int| 0 <= i < nows.len() implies #[trigger] cursor_after(c0, nows, i, cfg)
        <= cursor_after(c0, nows, i + 1, cfg) by {
        assert(cursor_after(c0, nows, i + 1, cfg) == next_cursor(
            cursor_after(c0, nows, i, cfg),
            nows[i],
            cfg,
        ));
    }
}

/// The window of iteration `i` in such a run: it starts at the cursor the
/// run had reached and ends at the bound computed from that iteration's
/// clock sample.
pub open spec fn window_at(c0: int, nows: Seq<int>, i: int, cfg: Config) -> Window
    recommends
        0 <= i < nows.len(),
        i64::MIN <= cursor_after(c0, nows, i, cfg) <= i64::MAX,
        i64::MIN <= next_cursor(cursor_after(c0, nows, i, cfg), nows[i], cfg) <= i64::MAX,
{
    Window {
        low: cursor_after(c0, nows, i, cfg) as i64,
        high: next_cursor(cursor_after(c0, nows, i, cfg), nows[i], cfg) as i64,
    }
}

/// No gaps, no overlap: across consecutive successful iterations, the
/// window of iteration `i + 1` begins exactly where the window of
/// iteration `i` ended.
pub proof fn lemma_no_gap(c0: int, nows: Seq<int>, i: int, cfg: Config)
    requires
        0 <= i,
        i + 1 < nows.len(),
        i64::MIN <= cursor_after(c0, nows, i, cfg) <= i64::MAX,
        i64::MIN <= cursor_after(c0, nows, i + 1, cfg) <= i64::MAX,
    ensures
        window_at(c0, nows, i + 1, cfg).low == window_at(c0, nows, i, cfg).high,
{
    assert(cursor_after(c0, nows, i + 1, cfg) == next_cursor(
        cursor_after(c0, nows, i, cfg),
        nows[i],
        cfg,
    ));
}

} // verus!
