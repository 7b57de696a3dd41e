//! The command-line surface, as plain data: the arguments each subcommand
//! takes, once parsed. The flag definitions and the parser live with the
//! surrounding program; the engine works on these values alone.

use vstd::prelude::*;

verus! {

/// Remote-service arguments shared by the commands.
#[derive(Clone, Default)]
pub struct AwsArgs {
    pub profile: Option<String>,
    pub workgroup: Option<String>,
    pub database: Option<String>,
    pub catalog: Option<String>,
    pub region: Option<String>,
    pub output_location: Option<String>,
}

/// Global display settings.
#[derive(Clone, Default)]
pub struct DisplayArgs {
    pub quiet: bool,
}

/// Arguments of commands that can write results to a file.
#[derive(Clone)]
pub struct OutputArgs {
    pub output: Option<String>,
}

/// The parsed invocation: the subcommand with the shared argument groups.
pub struct Cli {
    pub command: Commands,
    pub aws: AwsArgs,
    pub display: DisplayArgs,
}

/// The subcommands.
pub enum Commands {
    Query(QueryArgs),
    ListDatabases(DatabaseArgs),
    ListTables(TableArgs),
    DescribeTable(DescribeTableArgs),
    ListWorkgroups(WorkgroupArgs),
    History(HistoryArgs),
    Inspect(InspectArgs),
    Download(DownloadArgs),
}

/// Arguments of the query command. The reuse time is carried in whole
/// seconds.
#[derive(Clone)]
pub struct QueryArgs {
    pub aws: AwsArgs,
    pub query: String,
    pub reuse_time: u64,
}

/// Arguments of the database-listing command.
#[derive(Clone)]
pub struct DatabaseArgs {
    pub aws: AwsArgs,
}

/// Arguments of the table-listing command.
#[derive(Clone)]
pub struct TableArgs {
    pub db: Option<String>,
    pub filter: Option<String>,
    pub limit: i32,
}

/// Arguments of the table-description command.
#[derive(Clone)]
pub struct DescribeTableArgs {
    pub table: String,
    pub db: Option<String>,
}

/// Arguments of the workgroup-listing command.
#[derive(Clone)]
pub struct WorkgroupArgs {
    pub limit: i32,
}

/// Arguments of the history command.
#[derive(Clone)]
pub struct HistoryArgs {
    pub limit: Option<i32>,
    pub status: Option<String>,
}

/// Arguments of the inspection command.
#[derive(Clone)]
pub struct InspectArgs {
    pub query_id: String,
    pub output: Option<String>,
    pub quiet: bool,
}

/// Arguments of the download command.
#[derive(Clone)]
pub struct DownloadArgs {
    pub query_id: String,
    pub output: Option<String>,
}

} // verus!
