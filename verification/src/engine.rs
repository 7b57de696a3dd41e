//! The query orchestrator, as a state machine: submit, poll to a terminal
//! state, then paginate to completion.
//!
//! The remote calls and the suspension between polls are outside work; the
//! surrounding loop performs the action this module hands it and feeds the
//! outcome back as an event. Every decision — what to do on a status report,
//! how a page extends the table, when the run is over — is taken here, and
//! `step_relation` states the whole transition exactly. The orchestrator
//! never requests a page unless the execution reached its success terminal
//! state, and a failure terminal state always surfaces as `QueryFailed`.

use crate::errors::QueryError;
use crate::pager;
use crate::pager::MaterializedTable;
use crate::pager::ResultPage;
use crate::poller;
use crate::poller::StatusReport;
use vstd::prelude::*;

verus! {

/// Where a run stands.
pub enum EnginePhase {
    /// The submission is on its way to the service.
    Submitting,
    /// Awaiting a terminal state for the execution.
    Polling { handle: String },
    /// The execution succeeded; the first result page is being fetched.
    FetchingFirstPage { handle: String },
    /// Later pages are being fetched; the table holds every row seen so far.
    FetchingMorePages { handle: String, cursor: String, table: MaterializedTable },
    /// The run produced its table.
    Complete { table: MaterializedTable },
    /// The run failed with a typed error.
    Failed { error: QueryError },
}

/// What the surrounding loop reports back to the engine.
pub enum EngineEvent {
    /// The submission was accepted under this execution handle.
    Submitted { handle: String },
    /// A status query returned this report.
    StatusReported { report: StatusReport },
    /// A page of results arrived.
    PageFetched { page: ResultPage },
    /// A remote call failed in transport or API terms.
    TransportFailed { message: String },
}

/// What the surrounding loop is to do next.
pub enum EngineAction {
    /// Query the execution status now.
    CheckStatus { handle: String },
    /// Suspend for the fixed poll interval, then query the status.
    WaitThenCheckStatus { handle: String },
    /// Fetch a result page: the first page when no cursor is given, the next
    /// page from the cursor otherwise.
    FetchPage { handle: String, cursor: Option<String> },
    /// The run is over; stop.
    Stop,
}

/// A phase is well-formed when the table it carries is.
pub open spec fn phase_wf(phase: EnginePhase) -> bool {
    match phase {
        EnginePhase::FetchingMorePages { table, .. } => table.wf(),
        EnginePhase::Complete { table } => table.wf(),
        _ => true,
    }
}

/// An event the phase cannot answer is a protocol violation: the run fails
/// as a service error and stops.
pub open spec fn protocol_violation(next: EnginePhase, action: EngineAction) -> bool {
    &&& next matches EnginePhase::Failed { error } && error is ServiceError
    &&& action is Stop
}

/// The table built from a first page: its header row names the columns and
/// its remaining rows are the data.
pub open spec fn first_table_ok(page: ResultPage, t: MaterializedTable) -> bool {
    let rows = pager::views_of(page.rows@);
    &&& t.wf()
    &&& t.column_names@ == rows[0]
    &&& t.columns@.len() == rows[0].len()
    &&& forall|i: int|
        0 <= i < t.columns@.len() ==> t.columns@[i]@ == pager::column_of(rows.skip(1), i)
}

/// The table after a later page: every row of the page appended, in order,
/// to the table built so far.
pub open spec fn extended_table_ok(t0: MaterializedTable, page: ResultPage, t: MaterializedTable) -> bool {
    let rows = pager::views_of(page.rows@);
    &&& t.wf()
    &&& t.column_names@ == t0.column_names@
    &&& t.columns@.len() == t0.columns@.len()
    &&& forall|i: int|
        0 <= i < t.columns@.len() ==> t.columns@[i]@ == t0.columns@[i]@ + pager::column_of(rows, i)
}

/// After a well-formed table was produced from a page, the run either
/// completes (no cursor) or goes on fetching from the page's cursor.
pub open spec fn advance_ok(
    handle: String,
    page: ResultPage,
    t: MaterializedTable,
    next: EnginePhase,
    action: EngineAction,
) -> bool {
    match page.next_cursor {
        None => {
            &&& next matches EnginePhase::Complete { table } && table == t
            &&& action is Stop
        },
        Some(c) => {
            &&& next matches EnginePhase::FetchingMorePages { handle: h, cursor, table } && h@
                == handle@ && cursor@ == c@ && table == t
            &&& action matches EngineAction::FetchPage { handle: h2, cursor: c2 } && h2@ == handle@
                && (c2 matches Some(cc) && cc@ == c@)
        },
    }
}

/// The whole transition of the engine: what the next phase and action are
/// for each phase and event.
pub open spec fn step_relation(
    phase: EnginePhase,
    event: EngineEvent,
    next: EnginePhase,
    action: EngineAction,
) -> bool {
    match event {
        EngineEvent::TransportFailed { message } => {
            &&& next matches EnginePhase::Failed { error } && error is ServiceError
                && error.detail_spec() == message@
            &&& action is Stop
        },
        EngineEvent::Submitted { handle } => match phase {
            EnginePhase::Submitting => {
                &&& next matches EnginePhase::Polling { handle: h } && h@ == handle@
                &&& action matches EngineAction::CheckStatus { handle: h2 } && h2@ == handle@
            },
            _ => protocol_violation(next, action),
        },
        EngineEvent::StatusReported { report } => match phase {
            EnginePhase::Polling { handle } => {
                if report.state is Queued || report.state is Running {
                    &&& next matches EnginePhase::Polling { handle: h } && h@ == handle@
                    &&& action matches EngineAction::WaitThenCheckStatus { handle: h2 } && h2@
                        == handle@
                } else if report.state is Succeeded {
                    &&& next matches EnginePhase::FetchingFirstPage { handle: h } && h@ == handle@
                    &&& action matches EngineAction::FetchPage { handle: h2, cursor } && h2@
                        == handle@ && cursor is None
                } else {
                    &&& next matches EnginePhase::Failed { error } && error is QueryFailed
                        && error.detail_spec() == poller::failure_text(report)
                    &&& action is Stop
                }
            },
            _ => protocol_violation(next, action),
        },
        EngineEvent::PageFetched { page } => match phase {
            EnginePhase::FetchingFirstPage { handle } => {
                let rows = pager::views_of(page.rows@);
                if rows.len() == 0 {
                    &&& next matches EnginePhase::Complete { table } && table.column_names@.len()
                        == 0 && table.columns@.len() == 0
                    &&& action is Stop
                } else if !pager::rows_fit(rows[0].len(), rows.skip(1)) {
                    &&& next matches EnginePhase::Failed { error } && error is ServiceError
                    &&& action is Stop
                } else {
                    exists|t: MaterializedTable|
                        #![auto]
                        first_table_ok(page, t) && advance_ok(handle, page, t, next, action)
                }
            },
            EnginePhase::FetchingMorePages { handle, cursor: _, table } => {
                let rows = pager::views_of(page.rows@);
                if !pager::rows_fit(table.width(), rows) {
                    &&& next matches EnginePhase::Failed { error } && error is ServiceError
                    &&& action is Stop
                } else {
                    exists|t: MaterializedTable|
                        #![auto]
                        extended_table_ok(table, page, t) && advance_ok(handle, page, t, next, action)
                }
            },
            _ => protocol_violation(next, action),
        },
    }
}

/// The phase a fresh run starts from.
pub fn initial_phase() -> (r: EnginePhase)
    ensures
        r is Submitting,
{
    EnginePhase::Submitting
}

/// Complete the run or go on fetching from the page's cursor.
fn advance(handle: String, cursor: Option<String>, t: MaterializedTable) -> (r: (
    EnginePhase,
    EngineAction,
))
    requires
        t.wf(),
    ensures
        phase_wf(r.0),
        match cursor {
            None => r.0 matches EnginePhase::Complete { table } && table == t && r.1 is Stop,
            Some(c) => (r.0 matches EnginePhase::FetchingMorePages { handle: h, cursor: cu, table }
                && h@ == handle@ && cu@ == c@ && table == t) && (r.1 matches
            EngineAction::FetchPage { handle: h2, cursor: c2 } && h2@ == handle@ && (c2 matches Some(
                cc,
            ) && cc@ == c@)),
        },
{
    match cursor {
        None => (EnginePhase::Complete { table: t }, EngineAction::Stop),
        Some(c) => {
            let action = EngineAction::FetchPage {
                handle: handle.clone(),
                cursor: Some(c.clone()),
            };
            (EnginePhase::FetchingMorePages { handle, cursor: c, table: t }, action)
        },
    }
}

/// A protocol violation: fail the run and stop.
fn violated() -> (r: (EnginePhase, EngineAction))
    ensures
        protocol_violation(r.0, r.1),
        phase_wf(r.0),
{
    (
        EnginePhase::Failed {
            error: QueryError::ServiceError("event does not belong to this phase".to_owned()),
        },
        EngineAction::Stop,
    )
}

/// Take one step of the run: decide the next phase and the next action from
/// the phase the run is in and the event the surrounding loop reported.
pub fn engine_step(phase: EnginePhase, event: EngineEvent) -> (r: (EnginePhase, EngineAction))
    requires
        phase_wf(phase),
    ensures
        step_relation(phase, event, r.0, r.1),
        phase_wf(r.0),
{
    match event {
        EngineEvent::TransportFailed { message } => (
            EnginePhase::Failed { error: QueryError::ServiceError(message) },
            EngineAction::Stop,
        ),
        EngineEvent::Submitted { handle } => match phase {
            EnginePhase::Submitting => {
                let action = EngineAction::CheckStatus { handle: handle.clone() };
                (EnginePhase::Polling { handle }, action)
            },
            _ => violated(),
        },
        EngineEvent::StatusReported { report } => match phase {
            EnginePhase::Polling { handle } => match poller::poll_step(&report) {
                poller::PollOutcome::Retry => {
                    let action = EngineAction::WaitThenCheckStatus { handle: handle.clone() };
                    (EnginePhase::Polling { handle }, action)
                },
                poller::PollOutcome::Finished { statistics: _, result_location: _ } => {
                    let action = EngineAction::FetchPage { handle: handle.clone(), cursor: None };
                    (EnginePhase::FetchingFirstPage { handle }, action)
                },
                poller::PollOutcome::Terminated { error } => (
                    EnginePhase::Failed { error },
                    EngineAction::Stop,
                ),
            },
            _ => violated(),
        },
        EngineEvent::PageFetched { page } => match phase {
            EnginePhase::FetchingFirstPage { handle } => {
                if page.rows.len() == 0 {
                    (
                        EnginePhase::Complete {
                            table: MaterializedTable {
                                column_names: Vec::new(),
                                columns: Vec::new(),
                            },
                        },
                        EngineAction::Stop,
                    )
                } else {
                    let mut t = pager::table_from_header(&page.rows[0]);
                    match pager::apply_rows(&mut t, &page.rows, 1) {
                        Ok(_) => {
                            proof {
                                let rows = pager::views_of(page.rows@);
                                assert(t.column_names@ == page.rows@[0]@);
                                assert(rows[0] == page.rows@[0]@);
                                assert(first_table_ok(page, t));
                            }
                            advance(handle, page.next_cursor, t)
                        },
                        Err(e) => (EnginePhase::Failed { error: e }, EngineAction::Stop),
                    }
                }
            },
            EnginePhase::FetchingMorePages { handle, cursor: _, table } => {
                let mut t = table;
                let ghost t0 = t;
                match pager::apply_rows(&mut t, &page.rows, 0) {
                    Ok(_) => {
                        proof {
                            let rows = pager::views_of(page.rows@);
                            assert(rows.skip(0) =~= rows);
                            assert(extended_table_ok(t0, page, t));
                        }
                        advance(handle, page.next_cursor, t)
                    },
                    Err(e) => {
                        proof {
                            let rows = pager::views_of(page.rows@);
                            assert(rows.skip(0) =~= rows);
                        }
                        (EnginePhase::Failed { error: e }, EngineAction::Stop)
                    },
                }
            },
            _ => violated(),
        },
    }
}

/// The law the polling contract keeps: a failure terminal state reported
/// while polling ends the run as `QueryFailed` and stops it, and from the
/// failed run no page fetch is ever requested.
pub proof fn lemma_terminal_failure_stops_run(
    phase: EnginePhase,
    event: EngineEvent,
    next: EnginePhase,
    action: EngineAction,
)
    requires
        phase is Polling,
        event matches EngineEvent::StatusReported { report } && (report.state is Failed
            || report.state is Cancelled),
        step_relation(phase, event, next, action),
    ensures
        next matches EnginePhase::Failed { error } && error is QueryFailed,
        action is Stop,
        forall|e2: EngineEvent, n2: EnginePhase, a2: EngineAction|
            step_relation(next, e2, n2, a2) ==> !(a2 matches EngineAction::FetchPage { .. }),
{
    assert forall|e2: EngineEvent, n2: EnginePhase, a2: EngineAction|
        step_relation(next, e2, n2, a2) implies !(a2 matches EngineAction::FetchPage { .. }) by {
        match e2 {
            EngineEvent::TransportFailed { .. } => {},
            EngineEvent::Submitted { .. } => {},
            EngineEvent::StatusReported { .. } => {},
            EngineEvent::PageFetched { .. } => {},
        }
    }
}

} // verus!
