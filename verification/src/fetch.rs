//! The fetch orchestrator: a linear state machine that coordinates
//! "does the table exist" → "count rows" → "fetch all rows" → "map rows"
//! → "populate the store", short-circuiting when the table is absent.
//!
//! The transport (query execution) is an external collaborator: an
//! unverified driver performs each requested query and feeds the result
//! back as an event. The machine issues at most one request at a time,
//! decides every transition here, and is total: any response that does
//! not answer the pending request fails the fetch rather than continuing
//! with inconsistent state. A transport failure at any step aborts the
//! whole sequence; nothing is partially committed. An absent table is
//! not an error: it terminates with an empty store.

use vstd::prelude::*;

use crate::record::{map_rows, spec_map_row, Column, RawValue, RecordStore};

verus! {

/// A fetch failure surfaced to the caller, wrapping the transport's own
/// description of what went wrong.
#[derive(Debug)]
pub struct FetchError {
    pub message: String,
}

/// The phases of one fetch: three query phases, then a terminal state.
/// `Done` carries the loaded store; `Failed` the wrapped failure.
pub enum FetchState {
    CheckExistence,
    CountRecords,
    FetchRows,
    Done(RecordStore),
    Failed(FetchError),
}

/// A transport response handed back to the machine: the answer to the
/// pending query, or a transport failure.
pub enum FetchEvent {
    ExistsResult(bool),
    CountResult(i64),
    RowsResult(Vec<Column>, Vec<Vec<RawValue>>),
    TransportFailed(FetchError),
}

/// What the driver must do next: issue one of the three queries, or
/// nothing because the machine reached a terminal state.
#[derive(Clone, Copy, PartialEq, Eq, Structural, Debug)]
pub enum FetchAction {
    QueryExists,
    QueryCount,
    QueryAll,
    NoAction,
}

/// Whether every row of a result set has one cell per column.
pub open spec fn spec_rows_match_columns(cols: Seq<Column>, rows: Seq<Vec<RawValue>>) -> bool {
    forall|i: int| 0 <= i < rows.len() ==> rows[i]@.len() == cols.len()
}

/// The full transition relation of the fetch machine: what state and
/// action must follow each state on each event.
pub open spec fn spec_fetch_step(
    state: FetchState,
    event: FetchEvent,
    next: FetchState,
    action: FetchAction,
) -> bool {
    match state {
        FetchState::CheckExistence => match event {
            FetchEvent::ExistsResult(present) => if present {
                next is CountRecords && action is QueryCount
            } else {
                (next matches FetchState::Done(store) && store@.len() == 0)
                    && action is NoAction
            },
            FetchEvent::TransportFailed(e) => (next matches FetchState::Failed(f) && f == e)
                && action is NoAction,
            _ => next is Failed && action is NoAction,
        },
        FetchState::CountRecords => match event {
            FetchEvent::CountResult(_) => next is FetchRows && action is QueryAll,
            FetchEvent::TransportFailed(e) => (next matches FetchState::Failed(f) && f == e)
                && action is NoAction,
            _ => next is Failed && action is NoAction,
        },
        FetchState::FetchRows => match event {
            FetchEvent::RowsResult(cols, rows) => if spec_rows_match_columns(cols@, rows@) {
                (next matches FetchState::Done(store) && store@.len() == rows@.len() && (forall|
                    i: int,
                |
                    0 <= i < rows@.len() ==> store@[i]@ == spec_map_row(cols@, rows@[i]@)))
                    && action is NoAction
            } else {
                next is Failed && action is NoAction
            },
            FetchEvent::TransportFailed(e) => (next matches FetchState::Failed(f) && f == e)
                && action is NoAction,
            _ => next is Failed && action is NoAction,
        },
        FetchState::Done(_) => next == state && action is NoAction,
        FetchState::Failed(_) => next == state && action is NoAction,
    }
}

/// The machine's starting point: check that the target table exists.
pub fn fetch_init() -> (r: (FetchState, FetchAction))
    ensures
        r.0 is CheckExistence,
        r.1 is QueryExists,
{
    (FetchState::CheckExistence, FetchAction::QueryExists)
}

/// One transition of the fetch machine, per the transition relation:
/// table present moves on to counting; table absent terminates with an
/// empty store; a count moves on to fetching; fetched rows are mapped in
/// source order into the store; a transport failure aborts with that
/// failure; a response that does not answer the pending query fails the
/// fetch; terminal states absorb every event and request nothing.
pub fn fetch_step(state: FetchState, event: FetchEvent) -> (r: (FetchState, FetchAction))
    ensures
        spec_fetch_step(state, event, r.0, r.1),
{
    match state {
        FetchState::CheckExistence => match event {
            FetchEvent::ExistsResult(present) => {
                if present {
                    (FetchState::CountRecords, FetchAction::QueryCount)
                } else {
                    (FetchState::Done(RecordStore::new()), FetchAction::NoAction)
                }
            },
            FetchEvent::TransportFailed(e) => (FetchState::Failed(e), FetchAction::NoAction),
            _ => (FetchState::Failed(unexpected_response()), FetchAction::NoAction),
        },
        FetchState::CountRecords => match event {
            FetchEvent::CountResult(_) => (FetchState::FetchRows, FetchAction::QueryAll),
            FetchEvent::TransportFailed(e) => (FetchState::Failed(e), FetchAction::NoAction),
            _ => (FetchState::Failed(unexpected_response()), FetchAction::NoAction),
        },
        FetchState::FetchRows => match event {
            FetchEvent::RowsResult(cols, rows) => {
                if rows_match_columns(&cols, &rows) {
                    (FetchState::Done(map_rows(&cols, &rows)), FetchAction::NoAction)
                } else {
                    (FetchState::Failed(unexpected_response()), FetchAction::NoAction)
                }
            },
            FetchEvent::TransportFailed(e) => (FetchState::Failed(e), FetchAction::NoAction),
            _ => (FetchState::Failed(unexpected_response()), FetchAction::NoAction),
        },
        FetchState::Done(store) => (FetchState::Done(store), FetchAction::NoAction),
        FetchState::Failed(e) => (FetchState::Failed(e), FetchAction::NoAction),
    }
}

/// The failure used when a response does not answer the pending query.
fn unexpected_response() -> (r: FetchError) {
    FetchError { message: String::from_str("unexpected transport response") }
}

/// Whether every row of a result set has one cell per column.
fn rows_match_columns(cols: &Vec<Column>, rows: &Vec<Vec<RawValue>>) -> (r: bool)
    ensures
        r == spec_rows_match_columns(cols@, rows@),
{
    let mut i: usize = 0;
    while i < rows.len()
        invariant
            i <= rows.len(),
            forall|k: int| 0 <= k < i ==> #[trigger] rows@[k]@.len() == cols@.len(),
        decreases rows.len() - i,
    {
        if rows[i].len() != cols.len() {
            return false;
        }
        i = i + 1;
    }
    true
}

/// Once the machine is terminal it stays exactly where it is and never
/// requests another query: in particular, after an absent table ends the
/// fetch with an empty store, no count or fetch query is ever issued.
pub proof fn lemma_terminal_states_request_nothing(
    state: FetchState,
    event: FetchEvent,
    next: FetchState,
    action: FetchAction,
)
    requires
        state is Done || state is Failed,
        spec_fetch_step(state, event, next, action),
    ensures
        next == state,
        action is NoAction,
{
}

/// An absent table short-circuits the fetch: the very first transition
/// ends in `Done` with an empty store and requests no further query, so
/// neither the count nor the row fetch is ever issued.
pub proof fn lemma_absent_table_short_circuits(next: FetchState, action: FetchAction)
    requires
        spec_fetch_step(FetchState::CheckExistence, FetchEvent::ExistsResult(false), next, action),
    ensures
        next matches FetchState::Done(store) && store@.len() == 0,
        action is NoAction,
{
}

} // verus!
