//! The fields of the execution-inspection view: which can be shown, which
//! are shown by default, and the text each one renders for an execution.

use crate::common::OptionByteDisplay;
use crate::common::OptionDisplayValue;
use crate::common::OptionDurationFormat;
use crate::history_fields::format_status_spec;
use crate::history_fields::format_status;
use crate::poller::QueryExecutionInfo;
use crate::text;
use vstd::prelude::*;

verus! {

/// A field of the inspection view.
#[derive(Debug, Clone, Copy, PartialEq, Eq, Structural)]
pub enum InspectField {
    Id,
    Status,
    StatusReason,
    Query,
    SubmissionTime,
    CompletionTime,
    Database,
    Catalog,
    Workgroup,
    DataScanned,
    CacheStatus,
    EngineExecutionTime,
    TotalExecutionTime,
    QueryPlanningTime,
    QueryQueueTime,
    ServiceProcessingTime,
    OutputLocation,
}

impl InspectField {
    /// The field a configured name denotes, if any.
    pub open spec fn from_name_spec(s: Seq<char>) -> Option<InspectField> {
        if s == "Id"@ {
            Some(InspectField::Id)
        } else if s == "Status"@ {
            Some(InspectField::Status)
        } else if s == "StatusReason"@ {
            Some(InspectField::StatusReason)
        } else if s == "Query"@ {
            Some(InspectField::Query)
        } else if s == "SubmissionTime"@ {
            Some(InspectField::SubmissionTime)
        } else if s == "CompletionTime"@ {
            Some(InspectField::CompletionTime)
        } else if s == "Database"@ {
            Some(InspectField::Database)
        } else if s == "Catalog"@ {
            Some(InspectField::Catalog)
        } else if s == "Workgroup"@ {
            Some(InspectField::Workgroup)
        } else if s == "DataScanned"@ {
            Some(InspectField::DataScanned)
        } else if s == "CacheStatus"@ {
            Some(InspectField::CacheStatus)
        } else if s == "EngineExecutionTime"@ {
            Some(InspectField::EngineExecutionTime)
        } else if s == "TotalExecutionTime"@ {
            Some(InspectField::TotalExecutionTime)
        } else if s == "QueryPlanningTime"@ {
            Some(InspectField::QueryPlanningTime)
        } else if s == "QueryQueueTime"@ {
            Some(InspectField::QueryQueueTime)
        } else if s == "ServiceProcessingTime"@ {
            Some(InspectField::ServiceProcessingTime)
        } else if s == "OutputLocation"@ {
            Some(InspectField::OutputLocation)
        } else {
            None
        }
    }

    /// Parse a configured field name.
    pub fn from_name(s: &str) -> (r: Option<InspectField>)
        ensures
            r == Self::from_name_spec(s@),
    {
        if text::str_equal(s, "Id") {
            Some(InspectField::Id)
        } else if text::str_equal(s, "Status") {
            Some(InspectField::Status)
        } else if text::str_equal(s, "StatusReason") {
            Some(InspectField::StatusReason)
        } else if text::str_equal(s, "Query") {
            Some(InspectField::Query)
        } else if text::str_equal(s, "SubmissionTime") {
            Some(InspectField::SubmissionTime)
        } else if text::str_equal(s, "CompletionTime") {
            Some(InspectField::CompletionTime)
        } else if text::str_equal(s, "Database") {
            Some(InspectField::Database)
        } else if text::str_equal(s, "Catalog") {
            Some(InspectField::Catalog)
        } else if text::str_equal(s, "Workgroup") {
            Some(InspectField::Workgroup)
        } else if text::str_equal(s, "DataScanned") {
            Some(InspectField::DataScanned)
        } else if text::str_equal(s, "CacheStatus") {
            Some(InspectField::CacheStatus)
        } else if text::str_equal(s, "EngineExecutionTime") {
            Some(InspectField::EngineExecutionTime)
        } else if text::str_equal(s, "TotalExecutionTime") {
            Some(InspectField::TotalExecutionTime)
        } else if text::str_equal(s, "QueryPlanningTime") {
            Some(InspectField::QueryPlanningTime)
        } else if text::str_equal(s, "QueryQueueTime") {
            Some(InspectField::QueryQueueTime)
        } else if text::str_equal(s, "ServiceProcessingTime") {
            Some(InspectField::ServiceProcessingTime)
        } else if text::str_equal(s, "OutputLocation") {
            Some(InspectField::OutputLocation)
        } else {
            None
        }
    }

    /// The row heading of the field.
    pub open spec fn label_spec(self) -> Seq<char> {
        match self {
            InspectField::Id => "Query ID"@,
            InspectField::Status => "Status"@,
            InspectField::StatusReason => "Status Reason"@,
            InspectField::Query => "Query"@,
            InspectField::SubmissionTime => "Submission Time"@,
            InspectField::CompletionTime => "Completion Time"@,
            InspectField::Database => "Database"@,
            InspectField::Catalog => "Catalog"@,
            InspectField::Workgroup => "Workgroup"@,
            InspectField::DataScanned => "Data Scanned"@,
            InspectField::CacheStatus => "Cache Status"@,
            InspectField::EngineExecutionTime => "Engine Execution Time"@,
            InspectField::TotalExecutionTime => "Total Execution Time"@,
            InspectField::QueryPlanningTime => "Query Planning Time"@,
            InspectField::QueryQueueTime => "Query Queue Time"@,
            InspectField::ServiceProcessingTime => "Service Processing Time"@,
            InspectField::OutputLocation => "Output Location"@,
        }
    }

    /// The row heading of the field.
    pub fn label(&self) -> (r: String)
        ensures
            r@ == self.label_spec(),
    {
        match self {
            InspectField::Id => "Query ID".to_owned(),
            InspectField::Status => "Status".to_owned(),
            InspectField::StatusReason => "Status Reason".to_owned(),
            InspectField::Query => "Query".to_owned(),
            InspectField::SubmissionTime => "Submission Time".to_owned(),
            InspectField::CompletionTime => "Completion Time".to_owned(),
            InspectField::Database => "Database".to_owned(),
            InspectField::Catalog => "Catalog".to_owned(),
            InspectField::Workgroup => "Workgroup".to_owned(),
            InspectField::DataScanned => "Data Scanned".to_owned(),
            InspectField::CacheStatus => "Cache Status".to_owned(),
            InspectField::EngineExecutionTime => "Engine Execution Time".to_owned(),
            InspectField::TotalExecutionTime => "Total Execution Time".to_owned(),
            InspectField::QueryPlanningTime => "Query Planning Time".to_owned(),
            InspectField::QueryQueueTime => "Query Queue Time".to_owned(),
            InspectField::ServiceProcessingTime => "Service Processing Time".to_owned(),
            InspectField::OutputLocation => "Output Location".to_owned(),
        }
    }
}

impl core::str::FromStr for InspectField {
    type Err = String;

    fn from_str(s: &str) -> Result<InspectField, String> {
        match InspectField::from_name(s) {
            Some(f) => Ok(f),
            None => Err(text::concat2("unknown inspect field: ", s)),
        }
    }
}

/// The fields the inspection view shows when none are configured.
pub open spec fn default_inspect_fields_spec() -> Seq<InspectField> {
    seq![
        InspectField::Id,
        InspectField::Status,
        InspectField::StatusReason,
        InspectField::Query,
        InspectField::SubmissionTime,
        InspectField::CompletionTime,
        InspectField::Database,
        InspectField::Catalog,
        InspectField::Workgroup,
        InspectField::DataScanned,
        InspectField::CacheStatus,
        InspectField::EngineExecutionTime,
        InspectField::TotalExecutionTime,
        InspectField::QueryPlanningTime,
        InspectField::QueryQueueTime,
        InspectField::ServiceProcessingTime,
        InspectField::OutputLocation,
    ]
}

/// The default set of fields to display.
pub fn default_inspect_fields() -> (r: Vec<InspectField>)
    ensures
        r@ == default_inspect_fields_spec(),
{
    let mut r: Vec<InspectField> = Vec::new();
    r.push(InspectField::Id);
    r.push(InspectField::Status);
    r.push(InspectField::StatusReason);
    r.push(InspectField::Query);
    r.push(InspectField::SubmissionTime);
    r.push(InspectField::CompletionTime);
    r.push(InspectField::Database);
    r.push(InspectField::Catalog);
    r.push(InspectField::Workgroup);
    r.push(InspectField::DataScanned);
    r.push(InspectField::CacheStatus);
    r.push(InspectField::EngineExecutionTime);
    r.push(InspectField::TotalExecutionTime);
    r.push(InspectField::QueryPlanningTime);
    r.push(InspectField::QueryQueueTime);
    r.push(InspectField::ServiceProcessingTime);
    r.push(InspectField::OutputLocation);
    proof {
        assert(r@ =~= default_inspect_fields_spec());
    }
    r
}

/// The fields the configured names denote, unknown names dropped.
pub open spec fn parsed_inspect_fields(names: Seq<Seq<char>>) -> Seq<InspectField>
    decreases names.len(),
{
    if names.len() == 0 {
        Seq::empty()
    } else {
        parsed_inspect_fields(names.drop_last()) + (match InspectField::from_name_spec(
            names.last(),
        ) {
            Some(f) => seq![f],
            None => Seq::empty(),
        })
    }
}

/// The fields the inspection view shows: the configured ones where any of
/// the configured names is known, the defaults otherwise.
pub fn get_inspect_fields(configured: Option<&Vec<String>>) -> (r: Vec<InspectField>)
    ensures
        r@ == match configured {
            Some(names) => {
                if parsed_inspect_fields(names.deep_view()).len() > 0 {
                    parsed_inspect_fields(names.deep_view())
                } else {
                    default_inspect_fields_spec()
                }
            },
            None => default_inspect_fields_spec(),
        },
{
    match configured {
        None => default_inspect_fields(),
        Some(names) => {
            let n = names.len();
            let mut fields: Vec<InspectField> = Vec::new();
            let mut i: usize = 0;
            while i < n
                invariant
                    0 <= i <= n,
                    n == names@.len(),
                    fields@ == parsed_inspect_fields(names.deep_view().subrange(0, i as int)),
                decreases n - i,
            {
                proof {
                    let upto = names.deep_view().subrange(0, i + 1);
                    assert(upto.drop_last() =~= names.deep_view().subrange(0, i as int));
                    assert(upto.last() == names@[i as int]@);
                }
                match InspectField::from_name(names[i].as_str()) {
                    Some(f) => {
                        fields.push(f);
                        proof {
                            assert(fields@ =~= parsed_inspect_fields(
                                names.deep_view().subrange(0, i + 1),
                            ));
                        }
                    },
                    None => {
                        proof {
                            assert(fields@ =~= parsed_inspect_fields(
                                names.deep_view().subrange(0, i + 1),
                            ));
                        }
                    },
                }
                i += 1;
            }
            proof {
                assert(names.deep_view().subrange(0, n as int) =~= names.deep_view());
            }
            if fields.len() > 0 {
                fields
            } else {
                default_inspect_fields()
            }
        },
    }
}

/// The text the inspection view shows for one field of an execution.
pub open spec fn inspect_field_value_spec(info: QueryExecutionInfo, field: InspectField) -> Seq<
    char,
> {
    match field {
        InspectField::Id => info.id.display_or_default_spec(),
        InspectField::Status => format_status_spec(info.state),
        InspectField::StatusReason => info.state_change_reason.display_or_default_spec(),
        InspectField::Query => info.query.display_or_default_spec(),
        InspectField::SubmissionTime => info.submission_time.display_or_default_spec(),
        InspectField::CompletionTime => info.completion_time.display_or_default_spec(),
        InspectField::Database => info.database.display_or_default_spec(),
        InspectField::Catalog => info.catalog.display_or_default_spec(),
        InspectField::Workgroup => info.workgroup.display_or_default_spec(),
        InspectField::DataScanned => info.data_scanned_bytes.byte_display_or_default_spec(),
        InspectField::CacheStatus => {
            let scanned = match info.data_scanned_bytes {
                Some(b) => b,
                None => 1,
            };
            if scanned == 0 {
                "Used cache"@
            } else {
                "Fresh execution"@
            }
        },
        InspectField::EngineExecutionTime => info.engine_execution_ms.duration_display_or_default_spec(),
        InspectField::TotalExecutionTime => info.total_execution_ms.duration_display_or_default_spec(),
        InspectField::QueryPlanningTime => info.query_planning_ms.duration_display_or_default_spec(),
        InspectField::QueryQueueTime => info.query_queue_ms.duration_display_or_default_spec(),
        InspectField::ServiceProcessingTime => info.service_processing_ms.duration_display_or_default_spec(),
        InspectField::OutputLocation => info.output_location.display_or_default_spec(),
    }
}

/// Extract the text the inspection view shows for one field of an execution.
pub fn get_field_value(execution: &QueryExecutionInfo, field: InspectField) -> (r: String)
    ensures
        r@ == inspect_field_value_spec(*execution, field),
{
    match field {
        InspectField::Id => execution.id.to_display_value_or_default(),
        InspectField::Status => format_status(&execution.state),
        InspectField::StatusReason => execution.state_change_reason.to_display_value_or_default(),
        InspectField::Query => execution.query.to_display_value_or_default(),
        InspectField::SubmissionTime => execution.submission_time.to_display_value_or_default(),
        InspectField::CompletionTime => execution.completion_time.to_display_value_or_default(),
        InspectField::Database => execution.database.to_display_value_or_default(),
        InspectField::Catalog => execution.catalog.to_display_value_or_default(),
        InspectField::Workgroup => execution.workgroup.to_display_value_or_default(),
        InspectField::DataScanned => execution.data_scanned_bytes.format_bytes_or_default(),
        InspectField::CacheStatus => {
            let scanned = match execution.data_scanned_bytes {
                Some(b) => b,
                None => 1,
            };
            if scanned == 0 {
                "Used cache".to_owned()
            } else {
                "Fresh execution".to_owned()
            }
        },
        InspectField::EngineExecutionTime => execution
            .engine_execution_ms
            .format_duration_ms_or_default(),
        InspectField::TotalExecutionTime => execution
            .total_execution_ms
            .format_duration_ms_or_default(),
        InspectField::QueryPlanningTime => execution
            .query_planning_ms
            .format_duration_ms_or_default(),
        InspectField::QueryQueueTime => execution.query_queue_ms.format_duration_ms_or_default(),
        InspectField::ServiceProcessingTime => execution
            .service_processing_ms
            .format_duration_ms_or_default(),
        InspectField::OutputLocation => execution.output_location.to_display_value_or_default(),
    }
}

} // verus!
