//! The configuration object: the resolved file contents the engine is
//! handed. Loading and writing the file is outside work; the defaults and
//! their exact values are the library's.

use vstd::prelude::*;
use vstd::string::StringExecFns;

verus! {

/// The whole configuration: remote-service targets and application
/// settings.
#[derive(Debug)]
pub struct Config {
    pub aws: AwsConfig,
    pub app: AppConfig,
}

/// The remote-service targets a query falls back to when neither flags nor
/// environment name them.
#[derive(Debug)]
pub struct AwsConfig {
    pub region: Option<String>,
    pub workgroup: Option<String>,
    pub output_location: String,
    pub catalog: Option<String>,
    pub database: Option<String>,
    pub profile: Option<String>,
}

/// The column the history view can be sorted by.
#[derive(Debug, Clone, Copy, PartialEq, Eq, Structural)]
pub enum HistorySortBy {
    StartTime,
    EndTime,
    DataScanned,
    Status,
}

impl Default for HistorySortBy {
    /// History sorts by start time unless configured otherwise.
    fn default() -> (r: Self)
        ensures
            r is StartTime,
    {
        HistorySortBy::StartTime
    }
}

/// Application settings: the reuse duration in whole seconds, row and
/// history limits, and the optional field lists of the two views.
#[derive(Debug)]
pub struct AppConfig {
    pub query_reuse_time: u64,
    pub max_rows: usize,
    pub history_size: i32,
    pub history_fields: Option<Vec<String>>,
    pub inspect_fields: Option<Vec<String>>,
}

/// The number of history items shown when none is configured.
pub fn default_history_size() -> (r: i32)
    ensures
        r == 20,
{
    20
}

impl Default for Config {
    /// The configuration written on first use: the default region,
    /// workgroup, catalog and result location, a one-hour reuse duration,
    /// and the default row and history limits.
    fn default() -> (r: Config)
        ensures
            r.aws.region matches Some(s) && s@ == "eu-west-1"@,
            r.aws.workgroup matches Some(s) && s@ == "primary"@,
            r.aws.output_location@ == "s3://athena-query-results/"@,
            r.aws.catalog matches Some(s) && s@ == "AwsDataCatalog"@,
            r.aws.database is None,
            r.aws.profile is None,
            r.app.query_reuse_time == 3600,
            r.app.max_rows == 1000,
            r.app.history_size == 20,
            r.app.history_fields is None,
            r.app.inspect_fields is None,
    {
        Config {
            aws: AwsConfig {
                region: Some("eu-west-1".to_owned()),
                workgroup: Some("primary".to_owned()),
                output_location: "s3://athena-query-results/".to_owned(),
                catalog: Some("AwsDataCatalog".to_owned()),
                database: None,
                profile: None,
            },
            app: AppConfig {
                query_reuse_time: 3600,
                max_rows: 1000,
                history_size: default_history_size(),
                history_fields: None,
                inspect_fields: None,
            },
        }
    }
}

} // verus!
