use athena_cli::errors::QueryError;
use athena_cli::poller::cache_status_line;
use athena_cli::poller::poll_interval_secs;
use athena_cli::poller::poll_step;
use athena_cli::poller::prepare_submission;
use athena_cli::poller::reuse_policy_for;
use athena_cli::poller::used_cache;
use athena_cli::poller::ExecutionState;
use athena_cli::poller::ExecutionStatistics;
use athena_cli::poller::PollOutcome;
use athena_cli::poller::StatusReport;

fn stats(bytes: i64) -> ExecutionStatistics {
    ExecutionStatistics {
        data_scanned_bytes: bytes,
        engine_execution_ms: 1200,
        query_queue_ms: 40,
        query_planning_ms: 80,
    }
}

fn report(state: ExecutionState) -> StatusReport {
    StatusReport {
        state,
        statistics: None,
        result_location: None,
        failure_reason: None,
    }
}

#[test]
fn reuse_max_age_is_whole_minutes() {
    // d minutes requested as d * 60 seconds yields max-age d
    for d in [0u64, 1, 7, 60, 1440] {
        let p = reuse_policy_for(d * 60);
        assert!(p.enabled);
        assert_eq!(p.max_age_minutes, d);
    }
    // fractional minutes are floored
    let p = reuse_policy_for(119);
    assert_eq!(p.max_age_minutes, 1);
    // zero still marks reuse enabled
    let p = reuse_policy_for(0);
    assert!(p.enabled);
    assert_eq!(p.max_age_minutes, 0);
}

#[test]
fn transient_states_retry() {
    assert!(matches!(poll_step(&report(ExecutionState::Queued)), PollOutcome::Retry));
    assert!(matches!(poll_step(&report(ExecutionState::Running)), PollOutcome::Retry));
    assert_eq!(poll_interval_secs(), 1);
}

#[test]
fn success_hands_back_statistics_and_location() {
    let mut r = report(ExecutionState::Succeeded);
    r.statistics = Some(stats(42));
    r.result_location = Some("s3://b/k.csv".to_string());
    match poll_step(&r) {
        PollOutcome::Finished { statistics, result_location } => {
            assert_eq!(statistics.unwrap().data_scanned_bytes, 42);
            assert_eq!(result_location.unwrap(), "s3://b/k.csv");
        }
        _ => panic!("expected Finished"),
    }
}

#[test]
fn terminal_failures_surface_query_failed() {
    let mut r = report(ExecutionState::Failed);
    r.failure_reason = Some("table not found".to_string());
    match poll_step(&r) {
        PollOutcome::Terminated { error } => match error {
            QueryError::QueryFailed(reason) => assert_eq!(reason, "table not found"),
            _ => panic!("expected QueryFailed"),
        },
        _ => panic!("expected Terminated"),
    }

    match poll_step(&report(ExecutionState::Cancelled)) {
        PollOutcome::Terminated { error } => match error {
            QueryError::QueryFailed(reason) => {
                assert_eq!(reason, "query failed or was cancelled without specific reason")
            }
            _ => panic!("expected QueryFailed"),
        },
        _ => panic!("expected Terminated"),
    }
}

#[test]
fn missing_database_is_a_config_error() {
    let r = prepare_submission("SELECT 1", None, "primary", None, 600);
    assert!(matches!(r, Err(QueryError::ConfigError(_))));
}

#[test]
fn submission_carries_targets_and_policy() {
    let db = "analytics".to_string();
    let loc = "s3://results/".to_string();
    let s = prepare_submission("SELECT 1", Some(&db), "primary", Some(&loc), 3600).unwrap();
    assert_eq!(s.statement, "SELECT 1");
    assert_eq!(s.database, "analytics");
    assert_eq!(s.workgroup, "primary");
    assert_eq!(s.output_location, "s3://results/");
    assert!(s.reuse.enabled);
    assert_eq!(s.reuse.max_age_minutes, 60);

    let s = prepare_submission("SELECT 1", Some(&db), "primary", None, 0).unwrap();
    assert_eq!(s.output_location, "s3://aws-athena-query-results");
    assert_eq!(s.reuse.max_age_minutes, 0);
}

#[test]
fn zero_bytes_scanned_signals_the_cache() {
    assert!(used_cache(&stats(0)));
    assert!(!used_cache(&stats(1)));
    assert_eq!(cache_status_line(&stats(0)), "Results retrieved from cache");
    assert_eq!(
        cache_status_line(&stats(1500)),
        "Fresh query execution (scanned 1.5 KB)"
    );
}

#[test]
fn state_names_round_trip() {
    for (state, name) in [
        (ExecutionState::Queued, "QUEUED"),
        (ExecutionState::Running, "RUNNING"),
        (ExecutionState::Succeeded, "SUCCEEDED"),
        (ExecutionState::Failed, "FAILED"),
        (ExecutionState::Cancelled, "CANCELLED"),
    ] {
        assert_eq!(state.name(), name);
        assert_eq!(ExecutionState::from_name(name), Some(state));
    }
    assert_eq!(ExecutionState::from_name("WAITING"), None);
}
