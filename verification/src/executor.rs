//! Log Query Executor, the deciding half: which windows reach the store at
//! all, with what bounds, and how an iteration's outcome is represented.
//! The transport itself — session, statement, row stream — stays outside
//! the library and hands back a [`QueryOutcome`].

use vstd::prelude::*;
use crate::rows::CdcRow;
use crate::window::Window;

verus! {

/// Why an iteration failed: the store could not be queried, or a row could
/// not be decoded. Fatal for the whole process; nothing retries it here.
#[derive(Debug)]
pub struct QueryError {
    pub detail: String,
}

impl QueryError {
    /// Wraps a diagnostic message.
    pub fn new(detail: String) -> (r: QueryError)
        ensures
            r.detail@ == detail@,
    {
        QueryError { detail }
    }

    /// The diagnostic message, for reporting at process exit.
    pub fn message(&self) -> (r: &str)
        ensures
            r@ == self.detail@,
    {
        self.detail.as_str()
    }
}

/// What one iteration must do against the store.
pub enum QueryPlan {
    /// The window selects nothing: these are its rows — none — and the
    /// store is not consulted.
    Empty { rows: Vec<CdcRow> },
    /// Ask the store for the rows whose log time lies in `[low, high)`.
    Fetch { low: i64, high: i64 },
}

/// How the store call ended, handed back by whoever performed it.
pub enum QueryOutcome {
    /// Every row of the window arrived and was decoded, in store order.
    Completed(Vec<CdcRow>),
    /// Transport or decoding failed partway; the iteration is lost.
    Failed(QueryError),
}

/// Decides the query for one window. An empty or inverted window yields
/// zero rows, without an error and without touching the store; any other
/// window is queried with exactly its own bounds.
pub fn plan_query(w: &Window) -> (r: QueryPlan)
    ensures
        w.is_empty_spec() ==> (r matches QueryPlan::Empty { rows } && rows@ == Seq::<CdcRow>::empty()),
        !w.is_empty_spec() ==> (r matches QueryPlan::Fetch { low, high } && low == w.low && high
            == w.high),
{
    if w.is_empty() {
        QueryPlan::Empty { rows: Vec::new() }
    } else {
        QueryPlan::Fetch { low: w.low, high: w.high }
    }
}

} // verus!
