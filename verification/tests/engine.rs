use athena_cli::engine::engine_step;
use athena_cli::engine::initial_phase;
use athena_cli::engine::EngineAction;
use athena_cli::engine::EngineEvent;
use athena_cli::engine::EnginePhase;
use athena_cli::errors::QueryError;
use athena_cli::pager::ResultPage;
use athena_cli::poller::ExecutionState;
use athena_cli::poller::StatusReport;

fn row(cells: &[&str]) -> Vec<String> {
    cells.iter().map(|c| c.to_string()).collect()
}

fn status(state: ExecutionState, reason: Option<&str>) -> EngineEvent {
    EngineEvent::StatusReported {
        report: StatusReport {
            state,
            statistics: None,
            result_location: None,
            failure_reason: reason.map(|r| r.to_string()),
        },
    }
}

#[test]
fn a_full_run_stitches_all_pages() {
    let phase = initial_phase();
    assert!(matches!(phase, EnginePhase::Submitting));

    let (phase, action) = engine_step(phase, EngineEvent::Submitted { handle: "q-1".to_string() });
    assert!(matches!(&action, EngineAction::CheckStatus { handle } if handle == "q-1"));

    let (phase, action) = engine_step(phase, status(ExecutionState::Running, None));
    assert!(matches!(&action, EngineAction::WaitThenCheckStatus { handle } if handle == "q-1"));

    let (phase, action) = engine_step(phase, status(ExecutionState::Succeeded, None));
    assert!(
        matches!(&action, EngineAction::FetchPage { handle, cursor } if handle == "q-1" && cursor.is_none())
    );

    let first = ResultPage {
        rows: vec![row(&["id", "name"]), row(&["1", "a"])],
        next_cursor: Some("cursor-2".to_string()),
    };
    let (phase, action) = engine_step(phase, EngineEvent::PageFetched { page: first });
    assert!(
        matches!(&action, EngineAction::FetchPage { handle, cursor } if handle == "q-1" && cursor.as_deref() == Some("cursor-2"))
    );

    let second = ResultPage {
        rows: vec![row(&["2", "b"])],
        next_cursor: None,
    };
    let (phase, action) = engine_step(phase, EngineEvent::PageFetched { page: second });
    assert!(matches!(action, EngineAction::Stop));
    match phase {
        EnginePhase::Complete { table } => {
            assert_eq!(table.column_names, vec!["id".to_string(), "name".to_string()]);
            assert_eq!(table.columns[0], vec!["1", "2"]);
            assert_eq!(table.columns[1], vec!["a", "b"]);
        }
        _ => panic!("expected Complete"),
    }
}

#[test]
fn terminal_failure_ends_the_run_before_any_page_fetch() {
    let phase = initial_phase();
    let (phase, _) = engine_step(phase, EngineEvent::Submitted { handle: "q-2".to_string() });

    let (phase, action) = engine_step(phase, status(ExecutionState::Failed, Some("bad table")));
    assert!(matches!(action, EngineAction::Stop));
    match phase {
        EnginePhase::Failed { error } => match error {
            QueryError::QueryFailed(reason) => assert_eq!(reason, "bad table"),
            _ => panic!("expected QueryFailed"),
        },
        _ => panic!("expected Failed"),
    }
}

#[test]
fn cancellation_surfaces_like_failure() {
    let phase = EnginePhase::Polling { handle: "q-3".to_string() };
    let (phase, action) = engine_step(phase, status(ExecutionState::Cancelled, None));
    assert!(matches!(action, EngineAction::Stop));
    assert!(matches!(phase, EnginePhase::Failed { error: QueryError::QueryFailed(_) }));
}

#[test]
fn transport_failure_is_a_service_error() {
    let phase = EnginePhase::Polling { handle: "q-4".to_string() };
    let (phase, action) = engine_step(
        phase,
        EngineEvent::TransportFailed { message: "connection reset".to_string() },
    );
    assert!(matches!(action, EngineAction::Stop));
    match phase {
        EnginePhase::Failed { error } => match error {
            QueryError::ServiceError(message) => assert_eq!(message, "connection reset"),
            _ => panic!("expected ServiceError"),
        },
        _ => panic!("expected Failed"),
    }
}

#[test]
fn mismatched_event_fails_the_run() {
    let phase = initial_phase();
    let page = ResultPage { rows: vec![], next_cursor: None };
    let (phase, action) = engine_step(phase, EngineEvent::PageFetched { page });
    assert!(matches!(action, EngineAction::Stop));
    assert!(matches!(phase, EnginePhase::Failed { error: QueryError::ServiceError(_) }));
}

#[test]
fn ragged_page_fails_the_run() {
    let phase = EnginePhase::FetchingFirstPage { handle: "q-5".to_string() };
    let page = ResultPage {
        rows: vec![row(&["id", "name"]), row(&["1"])],
        next_cursor: None,
    };
    let (phase, action) = engine_step(phase, EngineEvent::PageFetched { page });
    assert!(matches!(action, EngineAction::Stop));
    assert!(matches!(phase, EnginePhase::Failed { error: QueryError::ServiceError(_) }));
}
