use athena_cli::cli::AwsArgs;
use athena_cli::cli::DisplayArgs;
use athena_cli::common::ByteDisplay;
use athena_cli::common::DisplayValue;
use athena_cli::common::DurationFormat;
use athena_cli::common::OptionByteDisplay;
use athena_cli::common::OptionDisplayValue;
use athena_cli::common::OptionDurationFormat;
use athena_cli::config::default_history_size;
use athena_cli::config::Config;
use athena_cli::context::parse_table_identifier;
use athena_cli::context::Context;
use athena_cli::context::EnvSettings;
use athena_cli::errors::is_auth_error_text;
use athena_cli::errors::QueryError;
use athena_cli::text::i64_to_string;

fn context_with(config: Config, args: AwsArgs, env: EnvSettings) -> Context {
    Context::new(config, args, DisplayArgs { quiet: false }, env)
}

#[test]
fn configuration_defaults_are_fixed() {
    let c = Config::default();
    assert_eq!(c.aws.region.as_deref(), Some("eu-west-1"));
    assert_eq!(c.aws.workgroup.as_deref(), Some("primary"));
    assert_eq!(c.aws.output_location, "s3://athena-query-results/");
    assert_eq!(c.aws.catalog.as_deref(), Some("AwsDataCatalog"));
    assert!(c.aws.database.is_none());
    assert!(c.aws.profile.is_none());
    assert_eq!(c.app.query_reuse_time, 3600);
    assert_eq!(c.app.max_rows, 1000);
    assert_eq!(c.app.history_size, 20);
    assert_eq!(default_history_size(), 20);
}

#[test]
fn precedence_prefers_flags_then_environment_then_config() {
    let mut config = Config::default();
    config.aws.database = Some("from-config".to_string());
    let args = AwsArgs {
        database: Some("from-flag".to_string()),
        ..AwsArgs::default()
    };
    let env = EnvSettings {
        database: Some("from-env".to_string()),
        ..EnvSettings::default()
    };

    let ctx = context_with(config, args, env.clone());
    assert_eq!(ctx.database().as_deref(), Some("from-flag"));

    let mut config = Config::default();
    config.aws.database = Some("from-config".to_string());
    let ctx = context_with(config, AwsArgs::default(), env);
    assert_eq!(ctx.database().as_deref(), Some("from-env"));

    let mut config = Config::default();
    config.aws.database = Some("from-config".to_string());
    let ctx = context_with(config, AwsArgs::default(), EnvSettings::default());
    assert_eq!(ctx.database().as_deref(), Some("from-config"));
}

#[test]
fn built_in_defaults_close_each_chain() {
    let mut config = Config::default();
    config.aws.region = None;
    config.aws.workgroup = None;
    config.aws.catalog = None;
    let ctx = context_with(config, AwsArgs::default(), EnvSettings::default());
    assert_eq!(ctx.region(), "eu-west-1");
    assert_eq!(ctx.workgroup(), "primary");
    assert_eq!(ctx.catalog(), "AwsDataCatalog");
    assert!(ctx.database().is_none());
    assert!(ctx.profile().is_none());
    assert_eq!(
        ctx.output_location().as_deref(),
        Some("s3://athena-query-results/")
    );
    assert!(!ctx.quiet());
    assert_eq!(ctx.history_size(), 20);
}

#[test]
fn profile_falls_back_through_both_environment_variables() {
    let env = EnvSettings {
        default_profile: Some("secondary".to_string()),
        ..EnvSettings::default()
    };
    let ctx = context_with(Config::default(), AwsArgs::default(), env);
    assert_eq!(ctx.profile().as_deref(), Some("secondary"));
}

#[test]
fn table_identifiers_resolve_their_database() {
    let (db, table) = parse_table_identifier("sales.orders", None, None).unwrap();
    assert_eq!(db, "sales");
    assert_eq!(table, "orders");

    // the first dot splits; the rest belongs to the table
    let (db, table) = parse_table_identifier("a.b.c", None, None).unwrap();
    assert_eq!(db, "a");
    assert_eq!(table, "b.c");

    let flag = "flagdb".to_string();
    let fallback = "ctxdb".to_string();
    let (db, _) = parse_table_identifier("orders", Some(&flag), Some(&fallback)).unwrap();
    assert_eq!(db, "flagdb");
    let (db, _) = parse_table_identifier("orders", None, Some(&fallback)).unwrap();
    assert_eq!(db, "ctxdb");

    assert!(matches!(
        parse_table_identifier("orders", None, None),
        Err(QueryError::ConfigError(_))
    ));
}

#[test]
fn display_helpers_render_values_and_dashes() {
    assert_eq!(1500i64.format_bytes(), "1.5 KB");
    assert_eq!((-1i64).format_bytes(), "-");
    assert_eq!(Some(2000i64).format_bytes_or_default(), "2 KB");
    assert_eq!(None::<i64>.format_bytes_or_default(), "-");

    assert_eq!(61000i64.format_duration_ms(), "1m 1s");
    assert_eq!(Some(500i64).format_duration_ms_or_default(), "500ms");
    assert_eq!(None::<i64>.format_duration_ms_or_default(), "-");

    assert_eq!("text".to_string().to_display_value(), "text");
    assert_eq!((-42i64).to_display_value(), "-42");
    assert_eq!(Some("x".to_string()).to_display_value_or_default(), "x");
    assert_eq!(None::<String>.to_display_value_or_default(), "-");

    assert_eq!(i64_to_string(0), "0");
    assert_eq!(i64_to_string(9007199254740993), "9007199254740993");
    assert_eq!(i64_to_string(i64::MIN), "-9223372036854775808");
}

#[test]
fn error_messages_name_their_category() {
    assert_eq!(
        QueryError::ConfigError("no database".to_string()).message(),
        "configuration error: no database"
    );
    assert_eq!(
        QueryError::QueryFailed("reason".to_string()).message(),
        "query failed: reason"
    );
    assert_eq!(
        QueryError::InvalidResultUri("x".to_string()).message(),
        "invalid result location: x"
    );
    assert_eq!(QueryError::IoError("denied".to_string()).message(), "io error: denied");
    assert_eq!(
        QueryError::ServiceError("timeout".to_string()).detail(),
        "timeout"
    );
}

#[test]
fn auth_errors_are_recognized_by_their_markers() {
    assert!(is_auth_error_text("ExpiredToken: The security token is expired"));
    assert!(is_auth_error_text("AccessDenied"));
    assert!(is_auth_error_text("could not load credentials"));
    assert!(!is_auth_error_text("TableNotFound"));
}
