//! The execution poller: submission with the cache-reuse policy, and the
//! decision taken on each status report while awaiting a terminal state.
//!
//! The poll loop itself performs remote calls and suspends, so it lives with
//! the surrounding program; every decision it takes is a function in this
//! module. On a transient state the caller is told to wait the fixed interval
//! and query again; on success the statistics and result location are handed
//! back; on a failure terminal state the outcome is a `QueryFailed` error
//! carrying the service-reported reason — never a transport error.

use crate::common;
use crate::errors::QueryError;
use crate::text;
use vstd::prelude::*;
use vstd::string::StringExecFns;

verus! {

/// The remote execution states: two transient, one terminal success, two
/// terminal failures.
#[derive(Clone, Copy, PartialEq, Eq, Structural, Debug)]
pub enum ExecutionState {
    Queued,
    Running,
    Succeeded,
    Failed,
    Cancelled,
}

impl ExecutionState {
    /// Whether the state ends the execution.
    pub open spec fn is_terminal(self) -> bool {
        self is Succeeded || self is Failed || self is Cancelled
    }

    /// The service's name for the state.
    pub open spec fn name_spec(self) -> Seq<char> {
        match self {
            ExecutionState::Queued => "QUEUED"@,
            ExecutionState::Running => "RUNNING"@,
            ExecutionState::Succeeded => "SUCCEEDED"@,
            ExecutionState::Failed => "FAILED"@,
            ExecutionState::Cancelled => "CANCELLED"@,
        }
    }

    /// The service's name for the state.
    pub fn name(&self) -> (r: String)
        ensures
            r@ == self.name_spec(),
    {
        match self {
            ExecutionState::Queued => "QUEUED".to_owned(),
            ExecutionState::Running => "RUNNING".to_owned(),
            ExecutionState::Succeeded => "SUCCEEDED".to_owned(),
            ExecutionState::Failed => "FAILED".to_owned(),
            ExecutionState::Cancelled => "CANCELLED".to_owned(),
        }
    }

    /// The state a service-reported name denotes, if any.
    pub open spec fn from_name_spec(s: Seq<char>) -> Option<ExecutionState> {
        if s == "QUEUED"@ {
            Some(ExecutionState::Queued)
        } else if s == "RUNNING"@ {
            Some(ExecutionState::Running)
        } else if s == "SUCCEEDED"@ {
            Some(ExecutionState::Succeeded)
        } else if s == "FAILED"@ {
            Some(ExecutionState::Failed)
        } else if s == "CANCELLED"@ {
            Some(ExecutionState::Cancelled)
        } else {
            None
        }
    }

    /// Parse a service-reported state name.
    pub fn from_name(s: &str) -> (r: Option<ExecutionState>)
        ensures
            r == Self::from_name_spec(s@),
    {
        if text::str_equal(s, "QUEUED") {
            Some(ExecutionState::Queued)
        } else if text::str_equal(s, "RUNNING") {
            Some(ExecutionState::Running)
        } else if text::str_equal(s, "SUCCEEDED") {
            Some(ExecutionState::Succeeded)
        } else if text::str_equal(s, "FAILED") {
            Some(ExecutionState::Failed)
        } else if text::str_equal(s, "CANCELLED") {
            Some(ExecutionState::Cancelled)
        } else {
            None
        }
    }
}

/// The statistics the service attaches to a succeeded execution.
#[derive(Clone, Copy, PartialEq, Eq, Structural, Debug)]
pub struct ExecutionStatistics {
    pub data_scanned_bytes: i64,
    pub engine_execution_ms: i64,
    pub query_queue_ms: i64,
    pub query_planning_ms: i64,
}

/// What one status query reports about an execution.
pub struct StatusReport {
    pub state: ExecutionState,
    pub statistics: Option<ExecutionStatistics>,
    pub result_location: Option<String>,
    pub failure_reason: Option<String>,
}

/// The result-reuse policy sent with a submission: always marked enabled,
/// with the maximum age in whole minutes. A max-age of zero leaves it to the
/// remote service to disable reuse on its side.
#[derive(Clone, Copy, PartialEq, Eq, Structural, Debug)]
pub struct ReusePolicy {
    pub enabled: bool,
    pub max_age_minutes: u64,
}

/// The reuse policy for a requested reuse duration: enabled, with max-age
/// the whole minutes the duration holds.
pub fn reuse_policy_for(reuse_secs: u64) -> (p: ReusePolicy)
    ensures
        p.enabled,
        p.max_age_minutes == reuse_secs / 60,
{
    ReusePolicy { enabled: true, max_age_minutes: reuse_secs / 60 }
}

/// One query submission: the statement, its targets, the reuse policy, and
/// where the service is to persist the result artifact.
pub struct QuerySubmission {
    pub statement: String,
    pub database: String,
    pub workgroup: String,
    pub reuse: ReusePolicy,
    pub output_location: String,
}

impl QuerySubmission {
    /// A submission's statement is never empty.
    pub open spec fn wf(&self) -> bool {
        self.statement@.len() > 0
    }
}

/// The result output location used when the caller resolved none.
pub open spec fn default_output_location() -> Seq<char> {
    "s3://aws-athena-query-results"@
}

/// Build the submission for a statement. Fails with `ConfigError` exactly
/// when no target database was resolved. The reuse policy is enabled with
/// max-age the whole minutes of the requested duration; a missing output
/// location falls back to the default.
pub fn prepare_submission(
    statement: &str,
    database: Option<&String>,
    workgroup: &str,
    output_location: Option<&String>,
    reuse_secs: u64,
) -> (r: Result<QuerySubmission, QueryError>)
    requires
        statement@.len() > 0,
    ensures
        match r {
            Ok(s) => {
                &&& database is Some
                &&& s.statement@ == statement@
                &&& s.database@ == database->0@
                &&& s.workgroup@ == workgroup@
                &&& s.reuse.enabled
                &&& s.reuse.max_age_minutes == reuse_secs / 60
                &&& s.output_location@ == (match output_location {
                    Some(l) => l@,
                    None => default_output_location(),
                })
                &&& s.wf()
            },
            Err(e) => e is ConfigError && database is None,
        },
{
    match database {
        None => Err(
            QueryError::ConfigError("database name is required but was not provided".to_owned()),
        ),
        Some(db) => Ok(
            QuerySubmission {
                statement: statement.to_owned(),
                database: db.clone(),
                workgroup: workgroup.to_owned(),
                reuse: reuse_policy_for(reuse_secs),
                output_location: match output_location {
                    Some(l) => l.clone(),
                    None => "s3://aws-athena-query-results".to_owned(),
                },
            },
        ),
    }
}

/// Everything the service reports about one execution, as plain values:
/// what the inspection and history surfaces read. Timestamps arrive already
/// rendered by the caller that fetched them.
pub struct QueryExecutionInfo {
    pub id: Option<String>,
    pub state: Option<ExecutionState>,
    pub state_change_reason: Option<String>,
    pub query: Option<String>,
    pub submission_time: Option<String>,
    pub completion_time: Option<String>,
    pub database: Option<String>,
    pub catalog: Option<String>,
    pub workgroup: Option<String>,
    pub output_location: Option<String>,
    pub data_scanned_bytes: Option<i64>,
    pub engine_execution_ms: Option<i64>,
    pub total_execution_ms: Option<i64>,
    pub query_planning_ms: Option<i64>,
    pub query_queue_ms: Option<i64>,
    pub service_processing_ms: Option<i64>,
}

/// The decision taken on one status report.
pub enum PollOutcome {
    /// The execution is still queued or running: wait the fixed interval and
    /// query the status again.
    Retry,
    /// The execution succeeded: the statistics and result location as the
    /// service reported them.
    Finished { statistics: Option<ExecutionStatistics>, result_location: Option<String> },
    /// The execution reached a failure terminal state: the error to surface.
    Terminated { error: QueryError },
}

/// The view of an optional string.
pub open spec fn opt_view(o: Option<String>) -> Option<Seq<char>> {
    match o {
        Some(s) => Some(s@),
        None => None,
    }
}

/// The reason text a failure terminal state carries: the service-reported
/// reason, or a fixed text when the service gave none.
pub open spec fn failure_text(report: StatusReport) -> Seq<char> {
    match report.failure_reason {
        Some(reason) => reason@,
        None => "query failed or was cancelled without specific reason"@,
    }
}

/// Decide what to do after one status report: retry on a transient state,
/// finish with the reported statistics on success, and surface a
/// `QueryFailed` (never a transport error) on a failure terminal state.
pub fn poll_step(report: &StatusReport) -> (r: PollOutcome)
    ensures
        (r is Retry) <==> (report.state is Queued || report.state is Running),
        report.state is Succeeded ==> (r matches PollOutcome::Finished {
            statistics,
            result_location,
        } && statistics == report.statistics && opt_view(result_location) == opt_view(
            report.result_location,
        )),
        (report.state is Failed || report.state is Cancelled) ==> (r matches
        PollOutcome::Terminated { error } && error is QueryFailed && error.detail_spec()
            == failure_text(*report)),
{
    match report.state {
        ExecutionState::Queued => PollOutcome::Retry,
        ExecutionState::Running => PollOutcome::Retry,
        ExecutionState::Succeeded => PollOutcome::Finished {
            statistics: report.statistics,
            result_location: match &report.result_location {
                Some(l) => Some(l.clone()),
                None => None,
            },
        },
        ExecutionState::Failed | ExecutionState::Cancelled => PollOutcome::Terminated {
            error: QueryError::QueryFailed(
                match &report.failure_reason {
                    Some(reason) => reason.clone(),
                    None => "query failed or was cancelled without specific reason".to_owned(),
                },
            ),
        },
    }
}

/// The interval, in seconds, the poll loop waits between two status queries
/// on a transient state.
pub fn poll_interval_secs() -> (r: u64)
    ensures
        r == 1,
{
    1
}

/// Whether statistics signal that the result came from the service's cache:
/// zero bytes scanned is the sole signal the remote API gives.
pub fn used_cache(stats: &ExecutionStatistics) -> (r: bool)
    ensures
        r == (stats.data_scanned_bytes == 0),
{
    stats.data_scanned_bytes == 0
}

/// The cache-status line reported for a succeeded execution: a cache notice
/// on zero bytes scanned, else the humanized amount of data a fresh
/// execution scanned.
pub open spec fn cache_status_spec(stats: ExecutionStatistics) -> Seq<char> {
    if stats.data_scanned_bytes == 0 {
        "Results retrieved from cache"@
    } else {
        "Fresh query execution (scanned "@ + common::byte_text(stats.data_scanned_bytes as int)
            + ")"@
    }
}

/// Render the cache-status line for a succeeded execution.
pub fn cache_status_line(stats: &ExecutionStatistics) -> (r: String)
    ensures
        r@ == cache_status_spec(*stats),
{
    if stats.data_scanned_bytes == 0 {
        "Results retrieved from cache".to_owned()
    } else {
        let amount = match common::byte_unit_display(stats.data_scanned_bytes) {
            Some(s) => s,
            None => "-".to_owned(),
        };
        let mut r = "Fresh query execution (scanned ".to_owned();
        r.append(amount.as_str());
        r.append(")");
        r
    }
}

} // verus!
