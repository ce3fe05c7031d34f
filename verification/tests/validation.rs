use yetii::config::connection_config::ConnectionConfig;
use yetii::config::database::{AuthConfig, DatabaseConfig, DatabaseType};
use yetii::config::endpoint_config::{EndpointConfig, RequestConfig};
use yetii::config::execution_config::ExecutionConfig;
use yetii::config::global_settings::{ErrorHandling, GlobalSettings, Logging, SecuritySettings};
use yetii::config::query_config::QueryConfig;
use yetii::config::schedule_config::ScheduleConfig;
use yetii::config::sql_query::SqlQuery;
use yetii::config::transform_config::TransformConfig;
use yetii::config::utils::default_version;
use yetii::config::yetii::YetiiConfig;
use yetii::config::{load_config, validate_config, ConfigError};

fn query(name: &str) -> QueryConfig {
    QueryConfig::new(
        name.to_string(),
        "rows for the warehouse".to_string(),
        SqlQuery::new("SELECT 1".to_string()),
        EndpointConfig::new("https://example.com/rows".to_string(), "POST".to_string()),
    )
}

fn minimal_document() -> YetiiConfig {
    YetiiConfig::new(
        DatabaseConfig::new(
            "main".to_string(),
            DatabaseType::Postgres,
            "localhost".to_string(),
            5432,
            "erp".to_string(),
            AuthConfig { username: None, password: None },
        ),
        vec![query("first"), query("second")],
    )
}

fn missing(outcome: Result<(), ConfigError>) -> String {
    match outcome {
        Err(ConfigError::MissingRequiredField(field)) => field,
        other => panic!("expected a missing field, got {:?}", other),
    }
}

fn out_of_range(outcome: Result<(), ConfigError>) -> (String, u32) {
    match outcome {
        Err(ConfigError::OutOfRange { field, value }) => (field, value),
        other => panic!("expected a value out of range, got {:?}", other),
    }
}

fn invalid_value(outcome: Result<(), ConfigError>) -> (String, String) {
    match outcome {
        Err(ConfigError::InvalidValue { field, value }) => (field, value),
        other => panic!("expected an invalid value, got {:?}", other),
    }
}

fn invalid_schedule(outcome: Result<(), ConfigError>) -> String {
    match outcome {
        Err(ConfigError::InvalidSchedule(cron)) => cron,
        other => panic!("expected an invalid schedule, got {:?}", other),
    }
}

#[test]
fn a_minimal_document_is_accepted_with_the_documented_defaults() {
    let doc = minimal_document();
    assert!(doc.validate().is_ok());
    assert!(validate_config(&doc).is_ok());
    let loaded = load_config(doc).expect("a minimal document loads");
    assert_eq!(loaded.version.as_deref(), Some("1.0.0"));
    assert_eq!(loaded.execution.mode, "sequential");
    assert_eq!(loaded.execution.global_timeout_minutes, Some(60));
    assert_eq!(loaded.global_settings.environment, "development");
    assert_eq!(loaded.global_settings.logging.level, "info");
    assert_eq!(loaded.global_settings.logging.format, "json");
    assert_eq!(loaded.global_settings.logging.output, "console");
    assert_eq!(loaded.global_settings.error_handling.on_query_error, "stop");
    assert_eq!(loaded.global_settings.error_handling.on_transform_error, "stop");
    assert_eq!(loaded.global_settings.error_handling.on_endpoint_error, "stop");
    assert_eq!(loaded.global_settings.error_handling.max_retries, 3);
    assert_eq!(loaded.global_settings.security.timeout_seconds, Some(30));
    assert_eq!(loaded.databases.pool.max_connections, Some(10));
    assert_eq!(loaded.databases.pool.timeout_seconds, Some(30));
    assert_eq!(loaded.databases.pool.retry_attempts, Some(3));
    assert!(loaded.queries[0].enabled);
    assert!(loaded.queries[0].transform.enabled);
    assert_eq!(loaded.queries[0].endpoint.request.format, "json");
    assert_eq!(loaded.queries[0].endpoint.request.batch_size, Some(100));
    assert_eq!(loaded.queries[0].endpoint.request.retry_delay_seconds, Some(1));
    assert_eq!(loaded.queries[0].endpoint.request.retry_backoff.as_deref(), Some("exponential"));
}

#[test]
fn what_is_left_out_has_its_default() {
    let written_out = YetiiConfig {
        version: default_version(),
        name: None,
        description: None,
        databases: DatabaseConfig {
            name: "main".to_string(),
            db_type: DatabaseType::Postgres,
            connection_string: None,
            host: "localhost".to_string(),
            port: 5432,
            database: "erp".to_string(),
            schema: None,
            auth: AuthConfig { username: None, password: None },
            pool: ConnectionConfig::default(),
        },
        global_settings: GlobalSettings::default(),
        queries: vec![QueryConfig {
            name: "only".to_string(),
            description: "rows for the warehouse".to_string(),
            enabled: true,
            database: None,
            schedule: None,
            query: SqlQuery { sql: "SELECT 1".to_string(), parameters: None, validation: None },
            transform: TransformConfig::default(),
            endpoint: EndpointConfig {
                url: "https://example.com/rows".to_string(),
                method: "POST".to_string(),
                auth: None,
                headers: None,
                request: RequestConfig::default(),
                response: None,
            },
        }],
        execution: ExecutionConfig::default(),
        monitoring: None,
        environments: None,
    };
    let mut built = minimal_document();
    built.queries.truncate(1);
    built.queries[0].name = "only".to_string();
    assert_eq!(built, written_out);
    assert_eq!(
        ScheduleConfig::new("0 0 * * *".to_string()),
        ScheduleConfig {
            cron: "0 0 * * *".to_string(),
            timezone: "UTC".to_string(),
            enabled: true
        }
    );
    assert!(ScheduleConfig::new("0 0 * * *".to_string()).validate().is_ok());
}

#[test]
fn load_hands_back_the_document_that_it_was_given() {
    let doc = minimal_document();
    let copy = doc.clone();
    assert_eq!(load_config(doc).expect("accepted"), copy);
}

#[test]
fn a_document_without_queries_is_accepted() {
    let mut doc = minimal_document();
    doc.queries = Vec::new();
    assert!(doc.validate().is_ok());
}

#[test]
fn a_document_without_version_is_refused() {
    let mut doc = minimal_document();
    doc.version = None;
    assert_eq!(missing(doc.validate()), "version");
}

#[test]
fn the_version_is_checked_before_anything_else() {
    let mut doc = minimal_document();
    doc.version = None;
    doc.databases.port = 0;
    doc.queries[0].name = String::new();
    assert_eq!(missing(doc.validate()), "version");
}

#[test]
fn an_empty_version_is_still_a_version() {
    let mut doc = minimal_document();
    doc.version = Some(String::new());
    assert!(doc.validate().is_ok());
}

#[test]
fn port_zero_is_out_of_range() {
    let mut doc = minimal_document();
    doc.databases.port = 0;
    assert_eq!(out_of_range(doc.validate()), ("database.port".to_string(), 0));
    match load_config(doc) {
        Err(ConfigError::OutOfRange { field, value }) => {
            assert_eq!(field, "database.port");
            assert_eq!(value, 0);
        }
        other => panic!("unexpected outcome: {:?}", other),
    }
}

#[test]
fn a_port_above_65535_is_out_of_range() {
    let mut doc = minimal_document();
    doc.databases.port = 65536;
    assert_eq!(out_of_range(doc.validate()), ("database.port".to_string(), 65536));
    doc.databases.port = u32::MAX;
    assert_eq!(out_of_range(doc.validate()), ("database.port".to_string(), u32::MAX));
}

#[test]
fn the_ends_of_the_port_range_are_accepted() {
    let mut doc = minimal_document();
    doc.databases.port = 1;
    assert!(doc.validate().is_ok());
    doc.databases.port = 65535;
    assert!(doc.validate().is_ok());
}

#[test]
fn the_database_needs_a_name_a_host_and_a_catalog() {
    let mut doc = minimal_document();
    doc.databases.name = "  ".to_string();
    assert_eq!(missing(doc.validate()), "database.name");
    assert_eq!(missing(doc.databases.validate()), "database.name");

    let mut doc = minimal_document();
    doc.databases.host = String::new();
    assert_eq!(missing(doc.validate()), "database.host");

    let mut doc = minimal_document();
    doc.databases.database = "\t\n".to_string();
    assert_eq!(missing(doc.validate()), "database.database");
}

#[test]
fn the_database_is_checked_in_the_order_of_its_rules() {
    let mut doc = minimal_document();
    doc.databases.name = String::new();
    doc.databases.host = String::new();
    doc.databases.database = String::new();
    doc.databases.port = 0;
    doc.databases.pool.max_connections = Some(0);
    assert_eq!(missing(doc.validate()), "database.name");
    doc.databases.name = "main".to_string();
    assert_eq!(missing(doc.validate()), "database.host");
    doc.databases.host = "localhost".to_string();
    assert_eq!(missing(doc.validate()), "database.database");
    doc.databases.database = "erp".to_string();
    assert_eq!(out_of_range(doc.validate()), ("database.port".to_string(), 0));
    doc.databases.port = 5432;
    assert_eq!(out_of_range(doc.validate()), ("database.pool.max_connections".to_string(), 0));
    doc.databases.pool.max_connections = Some(1);
    assert!(doc.validate().is_ok());
}

#[test]
fn every_kind_of_database_is_supported() {
    assert!(DatabaseType::Postgres.validate().is_ok());
    assert!(DatabaseType::Mysql.validate().is_ok());
    assert!(DatabaseType::Mssql.validate().is_ok());
    assert!(DatabaseType::Oracle.validate().is_ok());
}

#[test]
fn the_pool_has_its_ranges() {
    let pool = ConnectionConfig { max_connections: Some(0), ..ConnectionConfig::default() };
    assert_eq!(out_of_range(pool.validate()), ("pool.max_connections".to_string(), 0));
    let pool = ConnectionConfig { max_connections: Some(1001), ..ConnectionConfig::default() };
    assert_eq!(out_of_range(pool.validate()), ("pool.max_connections".to_string(), 1001));
    let pool = ConnectionConfig { max_connections: Some(1000), ..ConnectionConfig::default() };
    assert!(pool.validate().is_ok());
    let pool = ConnectionConfig { timeout_seconds: Some(0), ..ConnectionConfig::default() };
    assert_eq!(out_of_range(pool.validate()), ("pool.timeout_seconds".to_string(), 0));
    let pool = ConnectionConfig { timeout_seconds: Some(301), ..ConnectionConfig::default() };
    assert_eq!(out_of_range(pool.validate()), ("pool.timeout_seconds".to_string(), 301));
    let pool = ConnectionConfig { timeout_seconds: Some(300), ..ConnectionConfig::default() };
    assert!(pool.validate().is_ok());
    let pool = ConnectionConfig { retry_attempts: Some(1_000_000), ..ConnectionConfig::default() };
    assert!(pool.validate().is_ok());
    let pool =
        ConnectionConfig { max_connections: None, timeout_seconds: None, retry_attempts: None };
    assert!(pool.validate().is_ok());
    let pool = ConnectionConfig {
        max_connections: Some(0),
        timeout_seconds: Some(0),
        retry_attempts: None,
    };
    assert_eq!(out_of_range(pool.validate()), ("pool.max_connections".to_string(), 0));
}

#[test]
fn the_environment_is_one_of_three() {
    for tag in ["development", "staging", "production"] {
        let mut doc = minimal_document();
        doc.global_settings.environment = tag.to_string();
        assert!(doc.validate().is_ok(), "tag {}", tag);
    }
    for tag in ["", "prod", "Development", "production ", "test"] {
        let mut doc = minimal_document();
        doc.global_settings.environment = tag.to_string();
        assert_eq!(
            invalid_value(doc.validate()),
            ("global_settings.environment".to_string(), tag.to_string())
        );
    }
}

#[test]
fn each_error_action_is_one_of_three() {
    for action in ["stop", "log_and_continue", "retry"] {
        let policy = ErrorHandling {
            on_query_error: action.to_string(),
            on_transform_error: action.to_string(),
            on_endpoint_error: action.to_string(),
            max_retries: 10,
        };
        assert!(policy.validate().is_ok());
    }
    let policy = ErrorHandling { on_query_error: "ignore".to_string(), ..ErrorHandling::default() };
    assert_eq!(
        invalid_value(policy.validate()),
        ("error_handling.on_query_error".to_string(), "ignore".to_string())
    );
    let policy = ErrorHandling { on_transform_error: "".to_string(), ..ErrorHandling::default() };
    assert_eq!(
        invalid_value(policy.validate()),
        ("error_handling.on_transform_error".to_string(), String::new())
    );
    let policy = ErrorHandling { on_endpoint_error: "STOP".to_string(), ..ErrorHandling::default() };
    assert_eq!(
        invalid_value(policy.validate()),
        ("error_handling.on_endpoint_error".to_string(), "STOP".to_string())
    );
    let policy = ErrorHandling { max_retries: 11, ..ErrorHandling::default() };
    assert_eq!(out_of_range(policy.validate()), ("error_handling.max_retries".to_string(), 11));

    let mut doc = minimal_document();
    doc.global_settings.error_handling.on_endpoint_error = "give_up".to_string();
    assert_eq!(
        invalid_value(doc.validate()),
        ("global_settings.error_handling.on_endpoint_error".to_string(), "give_up".to_string())
    );
    let mut doc = minimal_document();
    doc.global_settings.error_handling.max_retries = 11;
    assert_eq!(
        out_of_range(doc.validate()),
        ("global_settings.error_handling.max_retries".to_string(), 11)
    );
}

#[test]
fn the_log_level_and_format_are_known_words() {
    for level in ["trace", "debug", "info", "warn", "error"] {
        let logging = Logging { level: level.to_string(), ..Logging::default() };
        assert!(logging.validate().is_ok());
    }
    for format in ["json", "plain", "structured"] {
        let logging = Logging { format: format.to_string(), ..Logging::default() };
        assert!(logging.validate().is_ok());
    }
    let logging = Logging { level: "verbose".to_string(), ..Logging::default() };
    assert_eq!(
        invalid_value(logging.validate()),
        ("logging.level".to_string(), "verbose".to_string())
    );
    let logging =
        Logging { level: "verbose".to_string(), format: "xml".to_string(), ..Logging::default() };
    assert_eq!(
        invalid_value(logging.validate()),
        ("logging.level".to_string(), "verbose".to_string())
    );
}

#[test]
fn a_log_format_of_xml_is_refused_by_name_and_value() {
    let mut doc = minimal_document();
    doc.global_settings.logging.format = "xml".to_string();
    let (field, value) = invalid_value(doc.validate());
    assert_eq!(field, "global_settings.logging.format");
    assert!(field.ends_with("format"));
    assert_eq!(value, "xml");
    let (field, value) = invalid_value(doc.global_settings.logging.validate());
    assert_eq!(field, "logging.format");
    assert_eq!(value, "xml");
    match load_config(doc) {
        Err(ConfigError::InvalidValue { field, value }) => {
            assert_eq!(field, "global_settings.logging.format");
            assert_eq!(value, "xml");
        }
        other => panic!("unexpected outcome: {:?}", other),
    }
}

#[test]
fn the_security_timeout_is_at_most_600() {
    let security = SecuritySettings { timeout_seconds: Some(600), ..SecuritySettings::default() };
    assert!(security.validate().is_ok());
    let security = SecuritySettings { timeout_seconds: Some(0), ..SecuritySettings::default() };
    assert!(security.validate().is_ok());
    let security = SecuritySettings { timeout_seconds: None, ..SecuritySettings::default() };
    assert!(security.validate().is_ok());
    let security = SecuritySettings { timeout_seconds: Some(601), ..SecuritySettings::default() };
    assert_eq!(out_of_range(security.validate()), ("security.timeout_seconds".to_string(), 601));
    let mut doc = minimal_document();
    doc.global_settings.security.timeout_seconds = Some(601);
    assert_eq!(
        out_of_range(doc.validate()),
        ("global_settings.security.timeout_seconds".to_string(), 601)
    );
}

#[test]
fn the_global_settings_are_checked_part_by_part() {
    let mut settings = GlobalSettings::default();
    assert!(settings.validate().is_ok());
    settings.security.timeout_seconds = Some(1000);
    settings.logging.level = "loud".to_string();
    settings.error_handling.max_retries = 50;
    settings.environment = "moon".to_string();
    assert_eq!(
        invalid_value(settings.validate()),
        ("global_settings.environment".to_string(), "moon".to_string())
    );
    settings.environment = "staging".to_string();
    assert_eq!(out_of_range(settings.validate()), ("error_handling.max_retries".to_string(), 50));
    settings.error_handling.max_retries = 0;
    assert_eq!(
        invalid_value(settings.validate()),
        ("logging.level".to_string(), "loud".to_string())
    );
    settings.logging.level = "warn".to_string();
    assert_eq!(out_of_range(settings.validate()), ("security.timeout_seconds".to_string(), 1000));
}

#[test]
fn a_query_without_name_is_refused_by_index() {
    let mut doc = minimal_document();
    doc.queries[1].name = String::new();
    assert_eq!(missing(doc.validate()), "queries[1].name");
    let mut doc = minimal_document();
    doc.queries[0].name = " \t".to_string();
    assert_eq!(missing(doc.validate()), "queries[0].name");
    assert_eq!(missing(doc.queries[0].validate()), "query.name");
    match load_config(doc) {
        Err(ConfigError::MissingRequiredField(field)) => assert_eq!(field, "queries[0].name"),
        other => panic!("unexpected outcome: {:?}", other),
    }
}

#[test]
fn the_first_query_that_breaks_a_rule_is_reported() {
    let mut doc = minimal_document();
    let mut queries = Vec::new();
    for i in 0..12 {
        queries.push(query(&format!("q{}", i)));
    }
    doc.queries = queries;
    doc.queries[10].query.sql = String::new();
    doc.queries[11].name = String::new();
    assert_eq!(missing(doc.validate()), "queries[10].query.sql");
    doc.queries[10].query.sql = "SELECT 2".to_string();
    assert_eq!(missing(doc.validate()), "queries[11].name");
}

#[test]
fn a_query_is_checked_in_the_order_of_its_rules() {
    let mut q = query("ordered");
    q.name = String::new();
    q.schedule =
        Some(ScheduleConfig { cron: "* *".to_string(), timezone: "UTC".to_string(), enabled: true });
    q.query.sql = " ".to_string();
    q.endpoint.url = String::new();
    q.endpoint.method = "FETCH".to_string();
    assert_eq!(missing(q.validate()), "query.name");
    q.name = "ordered".to_string();
    assert_eq!(invalid_schedule(q.validate()), "* *");
    q.schedule = None;
    assert_eq!(missing(q.validate()), "query.sql");
    assert_eq!(missing(q.query.validate()), "query.sql");
    q.query.sql = "SELECT 1".to_string();
    assert_eq!(missing(q.validate()), "endpoint.url");
    assert_eq!(missing(q.endpoint.validate()), "endpoint.url");
    q.endpoint.url = "https://example.com".to_string();
    assert_eq!(
        invalid_value(q.validate()),
        ("endpoint.method".to_string(), "FETCH".to_string())
    );
    q.endpoint.method = "WRITE".to_string();
    assert!(q.validate().is_ok());
}

#[test]
fn a_cron_expression_has_five_or_six_fields() {
    let schedule = |cron: &str, enabled: bool| ScheduleConfig {
        cron: cron.to_string(),
        timezone: "UTC".to_string(),
        enabled,
    };
    assert!(schedule("0 */6 * * *", true).validate().is_ok());
    assert!(schedule("0 0 */6 * * *", true).validate().is_ok());
    assert!(schedule("  0   0\t*/6 * * *\n", true).validate().is_ok());
    assert_eq!(invalid_schedule(schedule("", true).validate()), "");
    assert_eq!(invalid_schedule(schedule("   ", true).validate()), "   ");
    assert_eq!(invalid_schedule(schedule("* * * *", true).validate()), "* * * *");
    assert_eq!(invalid_schedule(schedule("* * * * * * *", true).validate()), "* * * * * * *");
    assert!(schedule("", false).validate().is_ok());
    assert!(schedule("whenever", false).validate().is_ok());

    let mut doc = minimal_document();
    doc.queries[1].schedule = Some(schedule("every day", true));
    assert_eq!(invalid_schedule(doc.validate()), "every day");
}

#[test]
fn the_method_is_one_of_six_in_capitals() {
    for method in ["GET", "POST", "PUT", "PATCH", "DELETE", "WRITE"] {
        let mut q = query("m");
        q.endpoint.method = method.to_string();
        assert!(q.validate().is_ok(), "method {}", method);
    }
    for method in ["get", "HEAD", "", "POST "] {
        let mut doc = minimal_document();
        doc.queries[0].endpoint.method = method.to_string();
        assert_eq!(
            invalid_value(doc.validate()),
            ("queries[0].endpoint.method".to_string(), method.to_string())
        );
    }
}

#[test]
fn a_query_needs_sql_and_a_url() {
    let mut doc = minimal_document();
    doc.queries[1].query.sql = "\n".to_string();
    assert_eq!(missing(doc.validate()), "queries[1].query.sql");
    let mut doc = minimal_document();
    doc.queries[1].endpoint.url = " ".to_string();
    assert_eq!(missing(doc.validate()), "queries[1].endpoint.url");
}

#[test]
fn a_transformation_breaks_no_rule() {
    assert!(TransformConfig::default().validate().is_ok());
    let transform = TransformConfig {
        enabled: false,
        mappings: None,
        group_by: Some(String::new()),
        filters: Some(Vec::new()),
        conversions: None,
    };
    assert!(transform.validate().is_ok());
}

#[test]
fn the_execution_mode_is_one_of_two() {
    for mode in ["parallel", "sequential"] {
        let policy = ExecutionConfig { mode: mode.to_string(), ..ExecutionConfig::default() };
        assert!(policy.validate().is_ok());
    }
    let policy = ExecutionConfig { mode: "serial".to_string(), ..ExecutionConfig::default() };
    assert_eq!(
        invalid_value(policy.validate()),
        ("execution.mode".to_string(), "serial".to_string())
    );
    let mut doc = minimal_document();
    doc.execution.mode = "Parallel".to_string();
    assert_eq!(
        invalid_value(doc.validate()),
        ("execution.mode".to_string(), "Parallel".to_string())
    );
}

#[test]
fn a_global_timeout_of_zero_is_out_of_range() {
    let policy = ExecutionConfig { global_timeout_minutes: Some(0), ..ExecutionConfig::default() };
    assert_eq!(
        out_of_range(policy.validate()),
        ("execution.global_timeout_minutes".to_string(), 0)
    );
    let policy = ExecutionConfig { global_timeout_minutes: None, ..ExecutionConfig::default() };
    assert!(policy.validate().is_ok());
    let policy =
        ExecutionConfig { global_timeout_minutes: Some(u32::MAX), ..ExecutionConfig::default() };
    assert!(policy.validate().is_ok());
    let mut doc = minimal_document();
    doc.execution.global_timeout_minutes = Some(0);
    assert_eq!(out_of_range(doc.validate()), ("execution.global_timeout_minutes".to_string(), 0));
}

#[test]
fn the_execution_policy_is_checked_last() {
    let mut doc = minimal_document();
    doc.execution.mode = "serial".to_string();
    doc.queries[1].endpoint.url = String::new();
    assert_eq!(missing(doc.validate()), "queries[1].endpoint.url");
    doc.queries[1].endpoint.url = "https://example.com".to_string();
    doc.global_settings.logging.level = "loud".to_string();
    assert_eq!(
        invalid_value(doc.validate()),
        ("global_settings.logging.level".to_string(), "loud".to_string())
    );
}

#[test]
fn placeholders_are_kept_as_written() {
    let mut doc = minimal_document();
    doc.databases.auth.password = Some("${ERP_PASSWORD}".to_string());
    let loaded = load_config(doc).expect("accepted");
    assert_eq!(loaded.databases.auth.password.as_deref(), Some("${ERP_PASSWORD}"));
}

#[test]
fn a_part_by_itself_reports_under_its_own_name() {
    let database = DatabaseConfig::new(
        String::new(),
        DatabaseType::Postgres,
        String::new(),
        5432,
        "d".to_string(),
        AuthConfig { username: None, password: None },
    );
    assert_eq!(missing(database.validate()), "database.name");
    let mut database = database;
    database.name = "main".to_string();
    assert_eq!(missing(database.validate()), "database.host");
    database.host = "localhost".to_string();
    database.database = " ".to_string();
    assert_eq!(missing(database.validate()), "database.database");
    database.database = "erp".to_string();
    database.port = 0;
    assert_eq!(out_of_range(database.validate()), ("database.port".to_string(), 0));
    database.port = 5432;
    database.pool.timeout_seconds = Some(301);
    assert_eq!(out_of_range(database.validate()), ("pool.timeout_seconds".to_string(), 301));

    let sql = SqlQuery::new(" \n\t".to_string());
    assert_eq!(missing(sql.validate()), "query.sql");
    let endpoint = EndpointConfig::new(String::new(), "post".to_string());
    assert_eq!(missing(endpoint.validate()), "endpoint.url");
    let endpoint = EndpointConfig::new("https://example.com".to_string(), "post".to_string());
    assert_eq!(
        invalid_value(endpoint.validate()),
        ("endpoint.method".to_string(), "post".to_string())
    );
}

#[test]
fn a_part_within_a_whole_reports_under_the_scope() {
    let mut database = DatabaseConfig::new(
        String::new(),
        DatabaseType::Mysql,
        "localhost".to_string(),
        3306,
        "erp".to_string(),
        AuthConfig { username: None, password: None },
    );
    assert_eq!(missing(database.validate_within("staging.databases")), "staging.databases.name");
    database.name = "main".to_string();
    database.pool.max_connections = Some(0);
    assert_eq!(
        out_of_range(database.validate_within("staging.databases")),
        ("staging.databases.pool.max_connections".to_string(), 0)
    );

    let mut settings = GlobalSettings::default();
    settings.logging.format = "xml".to_string();
    assert_eq!(
        invalid_value(settings.validate()),
        ("logging.format".to_string(), "xml".to_string())
    );
    assert_eq!(
        invalid_value(settings.validate_within("global_settings")),
        ("global_settings.logging.format".to_string(), "xml".to_string())
    );
    settings.environment = "moon".to_string();
    assert_eq!(
        invalid_value(settings.validate_within("prod")),
        ("prod.environment".to_string(), "moon".to_string())
    );

    let mut q = query("scoped");
    q.endpoint.url = String::new();
    assert_eq!(missing(q.validate()), "endpoint.url");
    assert_eq!(missing(q.validate_within("queries[7]")), "queries[7].endpoint.url");
    q.query.sql = String::new();
    assert_eq!(missing(q.validate()), "query.sql");
    assert_eq!(missing(q.validate_within("queries[7]")), "queries[7].query.sql");
    q.name = String::new();
    assert_eq!(missing(q.validate()), "query.name");
    assert_eq!(missing(q.validate_within("queries[7]")), "queries[7].name");
}
