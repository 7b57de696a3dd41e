use athena_cli::history_fields;
use athena_cli::history_fields::default_history_fields;
use athena_cli::history_fields::format_status;
use athena_cli::history_fields::get_history_fields;
use athena_cli::history_fields::status_filter_matches;
use athena_cli::history_fields::HistoryField;
use athena_cli::inspect_fields;
use athena_cli::inspect_fields::default_inspect_fields;
use athena_cli::inspect_fields::get_inspect_fields;
use athena_cli::inspect_fields::InspectField;
use athena_cli::poller::ExecutionState;
use athena_cli::poller::QueryExecutionInfo;

fn empty_info() -> QueryExecutionInfo {
    QueryExecutionInfo {
        id: None,
        state: None,
        state_change_reason: None,
        query: None,
        submission_time: None,
        completion_time: None,
        database: None,
        catalog: None,
        workgroup: None,
        output_location: None,
        data_scanned_bytes: None,
        engine_execution_ms: None,
        total_execution_ms: None,
        query_planning_ms: None,
        query_queue_ms: None,
        service_processing_ms: None,
    }
}

#[test]
fn default_field_sets_match_the_documented_order() {
    let history = default_history_fields();
    assert_eq!(history.len(), 10);
    assert_eq!(history[0], HistoryField::Id);
    assert_eq!(history[9], HistoryField::Cache);

    let inspect = default_inspect_fields();
    assert_eq!(inspect.len(), 17);
    assert_eq!(inspect[0], InspectField::Id);
    assert_eq!(inspect[16], InspectField::OutputLocation);
}

#[test]
fn configured_names_select_fields_and_unknown_names_fall_back() {
    let names = vec!["Status".to_string(), "Nope".to_string(), "Id".to_string()];
    assert_eq!(
        get_history_fields(Some(&names)),
        vec![HistoryField::Status, HistoryField::Id]
    );
    // all names unknown: the defaults apply
    let bad = vec!["Nope".to_string()];
    assert_eq!(get_history_fields(Some(&bad)), default_history_fields());
    assert_eq!(get_history_fields(None), default_history_fields());

    let names = vec!["Workgroup".to_string(), "CacheStatus".to_string()];
    assert_eq!(
        get_inspect_fields(Some(&names)),
        vec![InspectField::Workgroup, InspectField::CacheStatus]
    );
    assert_eq!(get_inspect_fields(None), default_inspect_fields());
}

#[test]
fn field_labels_are_the_display_headings() {
    assert_eq!(HistoryField::Id.label(), "ID");
    assert_eq!(HistoryField::StartTime.label(), "Start Time");
    assert_eq!(InspectField::Id.label(), "Query ID");
    assert_eq!(InspectField::ServiceProcessingTime.label(), "Service Processing Time");
}

#[test]
fn field_names_parse() {
    assert_eq!(HistoryField::from_name("DataScanned"), Some(HistoryField::DataScanned));
    assert_eq!(HistoryField::from_name("datascanned"), None);
    assert_eq!(
        InspectField::from_name("QueryQueueTime"),
        Some(InspectField::QueryQueueTime)
    );
    assert_eq!(InspectField::from_name(""), None);
}

#[test]
fn history_values_render_each_field() {
    let mut info = empty_info();
    info.id = Some("q-1".to_string());
    info.state = Some(ExecutionState::Succeeded);
    info.query = Some("SELECT 1".to_string());
    info.data_scanned_bytes = Some(0);
    info.engine_execution_ms = Some(61000);

    assert_eq!(history_fields::get_field_value(&info, HistoryField::Id), "q-1");
    assert_eq!(history_fields::get_field_value(&info, HistoryField::Status), "SUCCEEDED");
    assert_eq!(history_fields::get_field_value(&info, HistoryField::Query), "SELECT 1");
    assert_eq!(history_fields::get_field_value(&info, HistoryField::DataScanned), "0 B");
    assert_eq!(history_fields::get_field_value(&info, HistoryField::Runtime), "1m 1s");
    assert_eq!(history_fields::get_field_value(&info, HistoryField::Cache), "Used cache");
    assert_eq!(history_fields::get_field_value(&info, HistoryField::RowCount), "-");
    assert_eq!(history_fields::get_field_value(&info, HistoryField::OutputLocation), "-");
}

#[test]
fn long_query_text_is_clipped_for_history() {
    let mut info = empty_info();
    let long = "SELECT something FROM a_table_with_a_long_name";
    info.query = Some(long.to_string());
    let shown = history_fields::get_field_value(&info, HistoryField::Query);
    assert_eq!(shown, format!("{}...", &long[..27]));
}

#[test]
fn inspect_values_render_each_field() {
    let mut info = empty_info();
    info.state = Some(ExecutionState::Failed);
    info.state_change_reason = Some("TABLE_NOT_FOUND".to_string());
    info.database = Some("analytics".to_string());
    info.data_scanned_bytes = Some(1500);
    info.total_execution_ms = Some(1500);

    assert_eq!(inspect_fields::get_field_value(&info, InspectField::Status), "FAILED");
    assert_eq!(
        inspect_fields::get_field_value(&info, InspectField::StatusReason),
        "TABLE_NOT_FOUND"
    );
    assert_eq!(inspect_fields::get_field_value(&info, InspectField::Database), "analytics");
    assert_eq!(inspect_fields::get_field_value(&info, InspectField::DataScanned), "1.5 KB");
    assert_eq!(
        inspect_fields::get_field_value(&info, InspectField::CacheStatus),
        "Fresh execution"
    );
    assert_eq!(
        inspect_fields::get_field_value(&info, InspectField::TotalExecutionTime),
        "1s 500ms"
    );
    assert_eq!(inspect_fields::get_field_value(&info, InspectField::Catalog), "-");
}

#[test]
fn unknown_cache_state_counts_as_fresh() {
    let info = empty_info();
    assert_eq!(history_fields::get_field_value(&info, HistoryField::Cache), "-");
    assert_eq!(
        inspect_fields::get_field_value(&info, InspectField::CacheStatus),
        "Fresh execution"
    );
}

#[test]
fn status_filter_is_case_insensitive_on_the_filter() {
    let filter = Some("succeeded".to_string());
    assert!(status_filter_matches("SUCCEEDED", filter.as_ref()));
    assert!(!status_filter_matches("FAILED", filter.as_ref()));
    assert!(status_filter_matches("FAILED", None));
    assert_eq!(format_status(&Some(ExecutionState::Queued)), "QUEUED");
    assert_eq!(format_status(&None), "-");
}
