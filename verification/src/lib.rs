//! Windowed polling over a change-data-capture (CDC) log.
//!
//! The library computes successive half-open query windows `[low, high)`
//! from wall-clock samples and a cursor, decides when a window needs no
//! query at all, and drives the poll loop as an explicit state machine.
//! Transport to the store, the clock, and printing live outside it.

pub mod config;
pub mod executor;
pub mod poller;
pub mod rows;
pub mod stream_id;
pub mod window;

use vstd::prelude::*;

verus! {

/// The smaller of two values.
pub open spec fn min_i(a: int, b: int) -> int {
    if a <= b {
        a
    } else {
        b
    }
}

} // verus!
