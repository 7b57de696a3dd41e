//! The fields of the query-history view: which can be shown, which are shown
//! by default, and the text each one renders for an execution.

use crate::common::OptionByteDisplay;
use crate::common::OptionDisplayValue;
use crate::common::OptionDurationFormat;
use crate::poller::ExecutionState;
use crate::poller::QueryExecutionInfo;
use crate::text;
use vstd::prelude::*;

verus! {

/// A field of the history view.
#[derive(Debug, Clone, Copy, PartialEq, Eq, Structural)]
pub enum HistoryField {
    Id,
    Status,
    Query,
    StartTime,
    EndTime,
    DataScanned,
    Runtime,
    OutputLocation,
    Cache,
    RowCount,
}

impl HistoryField {
    /// The field a configured name denotes, if any.
    pub open spec fn from_name_spec(s: Seq<char>) -> Option<HistoryField> {
        if s == "Id"@ {
            Some(HistoryField::Id)
        } else if s == "Status"@ {
            Some(HistoryField::Status)
        } else if s == "Query"@ {
            Some(HistoryField::Query)
        } else if s == "StartTime"@ {
            Some(HistoryField::StartTime)
        } else if s == "EndTime"@ {
            Some(HistoryField::EndTime)
        } else if s == "DataScanned"@ {
            Some(HistoryField::DataScanned)
        } else if s == "Runtime"@ {
            Some(HistoryField::Runtime)
        } else if s == "OutputLocation"@ {
            Some(HistoryField::OutputLocation)
        } else if s == "Cache"@ {
            Some(HistoryField::Cache)
        } else if s == "RowCount"@ {
            Some(HistoryField::RowCount)
        } else {
            None
        }
    }

    /// Parse a configured field name.
    pub fn from_name(s: &str) -> (r: Option<HistoryField>)
        ensures
            r == Self::from_name_spec(s@),
    {
        if text::str_equal(s, "Id") {
            Some(HistoryField::Id)
        } else if text::str_equal(s, "Status") {
            Some(HistoryField::Status)
        } else if text::str_equal(s, "Query") {
            Some(HistoryField::Query)
        } else if text::str_equal(s, "StartTime") {
            Some(HistoryField::StartTime)
        } else if text::str_equal(s, "EndTime") {
            Some(HistoryField::EndTime)
        } else if text::str_equal(s, "DataScanned") {
            Some(HistoryField::DataScanned)
        } else if text::str_equal(s, "Runtime") {
            Some(HistoryField::Runtime)
        } else if text::str_equal(s, "OutputLocation") {
            Some(HistoryField::OutputLocation)
        } else if text::str_equal(s, "Cache") {
            Some(HistoryField::Cache)
        } else if text::str_equal(s, "RowCount") {
            Some(HistoryField::RowCount)
        } else {
            None
        }
    }

    /// The column heading of the field.
    pub open spec fn label_spec(self) -> Seq<char> {
        match self {
            HistoryField::Id => "ID"@,
            HistoryField::Status => "Status"@,
            HistoryField::Query => "Query"@,
            HistoryField::StartTime => "Start Time"@,
            HistoryField::EndTime => "End Time"@,
            HistoryField::DataScanned => "Data Scanned"@,
            HistoryField::Runtime => "Runtime"@,
            HistoryField::OutputLocation => "Output Location"@,
            HistoryField::Cache => "Cache"@,
            HistoryField::RowCount => "Row Count"@,
        }
    }

    /// The column heading of the field.
    pub fn label(&self) -> (r: String)
        ensures
            r@ == self.label_spec(),
    {
        match self {
            HistoryField::Id => "ID".to_owned(),
            HistoryField::Status => "Status".to_owned(),
            HistoryField::Query => "Query".to_owned(),
            HistoryField::StartTime => "Start Time".to_owned(),
            HistoryField::EndTime => "End Time".to_owned(),
            HistoryField::DataScanned => "Data Scanned".to_owned(),
            HistoryField::Runtime => "Runtime".to_owned(),
            HistoryField::OutputLocation => "Output Location".to_owned(),
            HistoryField::Cache => "Cache".to_owned(),
            HistoryField::RowCount => "Row Count".to_owned(),
        }
    }
}

impl core::str::FromStr for HistoryField {
    type Err = String;

    fn from_str(s: &str) -> Result<HistoryField, String> {
        match HistoryField::from_name(s) {
            Some(f) => Ok(f),
            None => Err(text::concat2("unknown history field: ", s)),
        }
    }
}

/// The fields the history view shows when none are configured.
pub open spec fn default_history_fields_spec() -> Seq<HistoryField> {
    seq![
        HistoryField::Id,
        HistoryField::Status,
        HistoryField::Query,
        HistoryField::StartTime,
        HistoryField::EndTime,
        HistoryField::DataScanned,
        HistoryField::Runtime,
        HistoryField::RowCount,
        HistoryField::OutputLocation,
        HistoryField::Cache,
    ]
}

/// The default set of fields to display.
pub fn default_history_fields() -> (r: Vec<HistoryField>)
    ensures
        r@ == default_history_fields_spec(),
{
    let mut r: Vec<HistoryField> = Vec::new();
    r.push(HistoryField::Id);
    r.push(HistoryField::Status);
    r.push(HistoryField::Query);
    r.push(HistoryField::StartTime);
    r.push(HistoryField::EndTime);
    r.push(HistoryField::DataScanned);
    r.push(HistoryField::Runtime);
    r.push(HistoryField::RowCount);
    r.push(HistoryField::OutputLocation);
    r.push(HistoryField::Cache);
    proof {
        assert(r@ =~= default_history_fields_spec());
    }
    r
}

/// The fields the configured names denote, unknown names dropped.
pub open spec fn parsed_history_fields(names: Seq<Seq<char>>) -> Seq<HistoryField>
    decreases names.len(),
{
    if names.len() == 0 {
        Seq::empty()
    } else {
        parsed_history_fields(names.drop_last()) + (match HistoryField::from_name_spec(
            names.last(),
        ) {
            Some(f) => seq![f],
            None => Seq::empty(),
        })
    }
}

/// The fields the history view shows: the configured ones where any of the
/// configured names is known, the defaults otherwise.
pub fn get_history_fields(configured: Option<&Vec<String>>) -> (r: Vec<HistoryField>)
    ensures
        r@ == match configured {
            Some(names) => {
                if parsed_history_fields(names.deep_view()).len() > 0 {
                    parsed_history_fields(names.deep_view())
                } else {
                    default_history_fields_spec()
                }
            },
            None => default_history_fields_spec(),
        },
{
    match configured {
        None => default_history_fields(),
        Some(names) => {
            let n = names.len();
            let mut fields: Vec<HistoryField> = Vec::new();
            let mut i: usize = 0;
            while i < n
                invariant
                    0 <= i <= n,
                    n == names@.len(),
                    fields@ == parsed_history_fields(names.deep_view().subrange(0, i as int)),
                decreases n - i,
            {
                proof {
                    let upto = names.deep_view().subrange(0, i + 1);
                    assert(upto.drop_last() =~= names.deep_view().subrange(0, i as int));
                    assert(upto.last() == names@[i as int]@);
                }
                match HistoryField::from_name(names[i].as_str()) {
                    Some(f) => {
                        fields.push(f);
                        proof {
                            assert(fields@ =~= parsed_history_fields(
                                names.deep_view().subrange(0, i + 1),
                            ));
                        }
                    },
                    None => {
                        proof {
                            assert(fields@ =~= parsed_history_fields(
                                names.deep_view().subrange(0, i + 1),
                            ));
                        }
                    },
                }
                i += 1;
            }
            proof {
                assert(names.deep_view().subrange(0, n as int) =~= names.deep_view());
            }
            if fields.len() > 0 {
                fields
            } else {
                default_history_fields()
            }
        },
    }
}

/// The text shown for an execution state that may be missing.
pub open spec fn format_status_spec(state: Option<ExecutionState>) -> Seq<char> {
    match state {
        Some(s) => s.name_spec(),
        None => "-"@,
    }
}

/// Render an execution state for display, with a dash when it is missing.
pub fn format_status(state: &Option<ExecutionState>) -> (r: String)
    ensures
        r@ == format_status_spec(*state),
{
    match state {
        Some(s) => s.name(),
        None => "-".to_owned(),
    }
}

/// Whether an execution's state name passes the history status filter: with
/// no filter everything passes; with one, the name must equal the filter
/// upper-cased.
pub open spec fn status_filter_matches_spec(name: Seq<char>, filter: Option<Seq<char>>) -> bool {
    match filter {
        None => true,
        Some(f) => name == text::upper_of(f),
    }
}

/// Whether an execution's state name passes the history status filter.
pub fn status_filter_matches(name: &str, filter: Option<&String>) -> (r: bool)
    ensures
        r == status_filter_matches_spec(
            name@,
            match filter {
                Some(f) => Some(f@),
                None => None,
            },
        ),
{
    match filter {
        None => true,
        Some(f) => {
            let upper = text::uppercase(f.as_str());
            text::str_equal(name, upper.as_str())
        },
    }
}

/// The text the history view shows for one field of an execution.
pub open spec fn history_field_value_spec(info: QueryExecutionInfo, field: HistoryField) -> Seq<
    char,
> {
    match field {
        HistoryField::Id => info.id.display_or_default_spec(),
        HistoryField::Status => format_status_spec(info.state),
        HistoryField::Query => match info.query {
            Some(q) => text::clipped_spec(q@, 30, 27),
            None => "-"@,
        },
        HistoryField::StartTime => info.submission_time.display_or_default_spec(),
        HistoryField::EndTime => info.completion_time.display_or_default_spec(),
        HistoryField::DataScanned => info.data_scanned_bytes.byte_display_or_default_spec(),
        HistoryField::Runtime => info.engine_execution_ms.duration_display_or_default_spec(),
        HistoryField::OutputLocation => info.output_location.display_or_default_spec(),
        HistoryField::Cache => {
            let scanned = match info.data_scanned_bytes {
                Some(b) => b,
                None => 1,
            };
            if scanned == 0 {
                "Used cache"@
            } else {
                "-"@
            }
        },
        HistoryField::RowCount => "-"@,
    }
}

/// Extract the text the history view shows for one field of an execution.
/// The query text is clipped to its first characters; the row count is not
/// part of an execution report and always renders as a dash.
pub fn get_field_value(execution: &QueryExecutionInfo, field: HistoryField) -> (r: String)
    ensures
        r@ == history_field_value_spec(*execution, field),
{
    match field {
        HistoryField::Id => execution.id.to_display_value_or_default(),
        HistoryField::Status => format_status(&execution.state),
        HistoryField::Query => match &execution.query {
            Some(q) => text::clipped(q.as_str(), 30, 27),
            None => "-".to_owned(),
        },
        HistoryField::StartTime => execution.submission_time.to_display_value_or_default(),
        HistoryField::EndTime => execution.completion_time.to_display_value_or_default(),
        HistoryField::DataScanned => execution.data_scanned_bytes.format_bytes_or_default(),
        HistoryField::Runtime => execution.engine_execution_ms.format_duration_ms_or_default(),
        HistoryField::OutputLocation => execution.output_location.to_display_value_or_default(),
        HistoryField::Cache => {
            let scanned = match execution.data_scanned_bytes {
                Some(b) => b,
                None => 1,
            };
            if scanned == 0 {
                "Used cache".to_owned()
            } else {
                "-".to_owned()
            }
        },
        HistoryField::RowCount => "-".to_owned(),
    }
}

} // verus!
