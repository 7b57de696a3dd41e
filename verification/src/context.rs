//! The runtime context: the precedence chains that resolve each
//! remote-service target from command-line arguments, environment values,
//! and the configuration file.
//!
//! Reading the environment is outside work; the caller snapshots the
//! relevant variables into `EnvSettings` and every precedence decision is
//! taken here.

use crate::cli::AwsArgs;
use crate::cli::DisplayArgs;
use crate::config::Config;
use crate::errors::QueryError;
use crate::poller::opt_view;
use crate::text;
use vstd::prelude::*;
use vstd::string::StringExecFns;

verus! {

/// The environment values the precedence chains consult, as the caller
/// found them.
#[derive(Clone, Default)]
pub struct EnvSettings {
    pub profile: Option<String>,
    pub default_profile: Option<String>,
    pub region: Option<String>,
    pub database: Option<String>,
    pub workgroup: Option<String>,
    pub catalog: Option<String>,
    pub output_location: Option<String>,
}

/// The runtime context: configuration, invocation arguments, and the
/// environment snapshot.
pub struct Context {
    pub config: Config,
    pub aws_args: AwsArgs,
    pub display_args: DisplayArgs,
    pub env: EnvSettings,
}

impl Context {
    /// Assemble the context from its parts.
    pub fn new(
        config: Config,
        aws_args: AwsArgs,
        display_args: DisplayArgs,
        env: EnvSettings,
    ) -> (r: Context)
        ensures
            r.config == config,
            r.aws_args == aws_args,
            r.display_args == display_args,
            r.env == env,
    {
        Context { config, aws_args, display_args, env }
    }

    /// The resolved profile: flag, then environment (primary, then
    /// fallback variable), then configuration.
    pub open spec fn profile_spec(&self) -> Option<Seq<char>> {
        match self.aws_args.profile {
            Some(p) => Some(p@),
            None => match self.env.profile {
                Some(p) => Some(p@),
                None => match self.env.default_profile {
                    Some(p) => Some(p@),
                    None => match self.config.aws.profile {
                        Some(p) => Some(p@),
                        None => None,
                    },
                },
            },
        }
    }

    /// The profile to authenticate with, if any was resolved.
    pub fn profile(&self) -> (r: Option<String>)
        ensures
            opt_view(r) == self.profile_spec(),
    {
        match &self.aws_args.profile {
            Some(p) => Some(p.clone()),
            None => match &self.env.profile {
                Some(p) => Some(p.clone()),
                None => match &self.env.default_profile {
                    Some(p) => Some(p.clone()),
                    None => match &self.config.aws.profile {
                        Some(p) => Some(p.clone()),
                        None => None,
                    },
                },
            },
        }
    }

    /// The resolved region: flag, then environment, then configuration,
    /// then the built-in default.
    pub open spec fn region_spec(&self) -> Seq<char> {
        match self.aws_args.region {
            Some(p) => p@,
            None => match self.env.region {
                Some(p) => p@,
                None => match self.config.aws.region {
                    Some(p) => p@,
                    None => "eu-west-1"@,
                },
            },
        }
    }

    /// The region remote calls go to.
    pub fn region(&self) -> (r: String)
        ensures
            r@ == self.region_spec(),
    {
        match &self.aws_args.region {
            Some(p) => p.clone(),
            None => match &self.env.region {
                Some(p) => p.clone(),
                None => match &self.config.aws.region {
                    Some(p) => p.clone(),
                    None => "eu-west-1".to_owned(),
                },
            },
        }
    }

    /// The resolved database: flag, then environment, then configuration.
    pub open spec fn database_spec(&self) -> Option<Seq<char>> {
        match self.aws_args.database {
            Some(p) => Some(p@),
            None => match self.env.database {
                Some(p) => Some(p@),
                None => match self.config.aws.database {
                    Some(p) => Some(p@),
                    None => None,
                },
            },
        }
    }

    /// The database queries run against, if any was resolved.
    pub fn database(&self) -> (r: Option<String>)
        ensures
            opt_view(r) == self.database_spec(),
    {
        match &self.aws_args.database {
            Some(p) => Some(p.clone()),
            None => match &self.env.database {
                Some(p) => Some(p.clone()),
                None => match &self.config.aws.database {
                    Some(p) => Some(p.clone()),
                    None => None,
                },
            },
        }
    }

    /// The resolved workgroup: flag, then environment, then configuration,
    /// then the built-in default.
    pub open spec fn workgroup_spec(&self) -> Seq<char> {
        match self.aws_args.workgroup {
            Some(p) => p@,
            None => match self.env.workgroup {
                Some(p) => p@,
                None => match self.config.aws.workgroup {
                    Some(p) => p@,
                    None => "primary"@,
                },
            },
        }
    }

    /// The workgroup executions are submitted to.
    pub fn workgroup(&self) -> (r: String)
        ensures
            r@ == self.workgroup_spec(),
    {
        match &self.aws_args.workgroup {
            Some(p) => p.clone(),
            None => match &self.env.workgroup {
                Some(p) => p.clone(),
                None => match &self.config.aws.workgroup {
                    Some(p) => p.clone(),
                    None => "primary".to_owned(),
                },
            },
        }
    }

    /// The resolved catalog: flag, then environment, then configuration,
    /// then the built-in default.
    pub open spec fn catalog_spec(&self) -> Seq<char> {
        match self.aws_args.catalog {
            Some(p) => p@,
            None => match self.env.catalog {
                Some(p) => p@,
                None => match self.config.aws.catalog {
                    Some(p) => p@,
                    None => "AwsDataCatalog"@,
                },
            },
        }
    }

    /// The catalog listings read from.
    pub fn catalog(&self) -> (r: String)
        ensures
            r@ == self.catalog_spec(),
    {
        match &self.aws_args.catalog {
            Some(p) => p.clone(),
            None => match &self.env.catalog {
                Some(p) => p.clone(),
                None => match &self.config.aws.catalog {
                    Some(p) => p.clone(),
                    None => "AwsDataCatalog".to_owned(),
                },
            },
        }
    }

    /// The resolved result location: flag, then environment, then the
    /// configured location.
    pub open spec fn output_location_spec(&self) -> Seq<char> {
        match self.aws_args.output_location {
            Some(p) => p@,
            None => match self.env.output_location {
                Some(p) => p@,
                None => self.config.aws.output_location@,
            },
        }
    }

    /// Where the service persists result artifacts. The configuration always
    /// supplies a location, so one is always resolved.
    pub fn output_location(&self) -> (r: Option<String>)
        ensures
            r matches Some(l) && l@ == self.output_location_spec(),
    {
        match &self.aws_args.output_location {
            Some(p) => Some(p.clone()),
            None => match &self.env.output_location {
                Some(p) => Some(p.clone()),
                None => Some(self.config.aws.output_location.clone()),
            },
        }
    }

    /// Whether detailed output is suppressed.
    pub fn quiet(&self) -> (r: bool)
        ensures
            r == self.display_args.quiet,
    {
        self.display_args.quiet
    }

    /// The configured number of history items to show.
    pub fn history_size(&self) -> (r: i32)
        ensures
            r == self.config.app.history_size,
    {
        self.config.app.history_size
    }
}

/// How a table name on the command line resolves to a database and table:
/// a name holding a `.` carries its own database before the first `.`;
/// otherwise the explicit database flag, then the context's database, is
/// used. With none of the three, the identifier does not resolve.
pub open spec fn table_identifier_spec(
    table: Seq<char>,
    db_arg: Option<Seq<char>>,
    default_db: Option<Seq<char>>,
) -> Option<(Seq<char>, Seq<char>)> {
    match text::find_char_spec(table, '.') {
        Some(i) => Some((table.subrange(0, i), table.subrange(i + 1, table.len() as int))),
        None => match db_arg {
            Some(db) => Some((db, table)),
            None => match default_db {
                Some(db) => Some((db, table)),
                None => None,
            },
        },
    }
}

/// Resolve a command-line table identifier into database and table names.
/// Fails with `ConfigError` exactly when the identifier names no database
/// and none was resolved elsewhere.
pub fn parse_table_identifier(
    table: &str,
    db_arg: Option<&String>,
    default_db: Option<&String>,
) -> (r: Result<(String, String), QueryError>)
    ensures
        match r {
            Ok((db, tbl)) => table_identifier_spec(
                table@,
                match db_arg {
                    Some(d) => Some(d@),
                    None => None,
                },
                match default_db {
                    Some(d) => Some(d@),
                    None => None,
                },
            ) == Some((db@, tbl@)),
            Err(e) => e is ConfigError && text::find_char_spec(table@, '.') is None && db_arg
                is None && default_db is None,
        },
{
    let n = text::str_len(table);
    match text::find_char(table, '.') {
        Some(i) => Ok((text::substring(table, 0, i), text::substring(table, i + 1, n))),
        None => match db_arg {
            Some(db) => Ok((db.clone(), table.to_owned())),
            None => match default_db {
                Some(db) => Ok((db.clone(), table.to_owned())),
                None => Err(
                    QueryError::ConfigError(
                        "no database specified: use a flag or the database.table form".to_owned(),
                    ),
                ),
            },
        },
    }
}

} // verus!
