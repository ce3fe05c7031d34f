//! The example document that `init` writes, and the comments around it.

use crate::config::connection_config::ConnectionConfig;
use crate::config::database::{
    AuthConfig, AuthConfigView, DatabaseConfig, DatabaseConfigView, DatabaseType,
};
use crate::config::endpoint_config::{
    EndpointAuth, EndpointAuthView, EndpointConfig, EndpointConfigView, ResponseConfig,
    ResponseConfigView,
};
use crate::config::error_handling::{ErrorHandling, ErrorHandlingView};
use crate::config::execution_config::{
    ExecutionConfig, ExecutionConfigView, SchedulerConfig, SchedulerConfigView, StateManagement,
    StateManagementView,
};
use crate::config::global_settings::{GlobalSettings, GlobalSettingsView};
use crate::config::logging::{LogRotation, Logging, LoggingView};
use crate::config::monitor_config::{
    HealthCheckConfig, HealthCheckConfigView, MetricsConfig, MetricsConfigView, MonitoringConfig,
    MonitoringConfigView, NotificationChannel, NotificationChannelView, NotificationSettings,
    NotificationSettingsView,
};
use crate::config::query_config::{QueryConfig, QueryConfigView};
use crate::config::request_config::{RequestConfig, RequestConfigView};
use crate::config::schedule_config::{ScheduleConfig, ScheduleConfigView};
use crate::config::security_settings::SecuritySettings;
use crate::config::sql_query::{
    QueryParameter, QueryParameterView, QueryValidation, SqlQuery, SqlQueryView,
};
use crate::config::string_map::{StringMap, lemma_with_entry_absent};
use crate::config::transform_config::{
    DataConversion, DataConversionView, DataFilter, DataFilterView, TransformConfig,
    TransformConfigView,
};
use crate::config::yetii::{YetiiConfig, YetiiConfigView};
use crate::config::laws::lemma_queries_pass;
use crate::text::{lemma_token_count_step, same_text, token_count, trim, trimmed, white_space};
use vstd::prelude::*;
use vstd::string::StringExecFns;

verus! {

/// The one query of the example document.
pub open spec fn example_query() -> QueryConfigView {
    QueryConfigView {
        name: "customer_data_sync"@,
        description: "Sync customer data from ERP to external system"@,
        enabled: true,
        database: Some("main_erp"@),
        schedule: Some(
            ScheduleConfigView { cron: "0 */6 * * *"@, timezone: "UTC"@, enabled: true },
        ),
        query: SqlQueryView {
            sql: "SELECT \n  customer_id,\n  customer_name,\n  email,\n  created_at\nFROM customers \nWHERE updated_at > $last_run_time\nORDER BY updated_at"@,
            parameters: Some(
                seq![
                    (
                        "last_run_time"@,
                        QueryParameterView {
                            param_type: "timestamp"@,
                            default: Some("1970-01-01T00:00:00Z"@),
                            source: Some("state_file"@),
                        },
                    ),
                ],
            ),
            validation: Some(
                QueryValidation {
                    strict_mapping: Some(true),
                    warn_unmapped_columns: Some(true),
                    validate_filter_fields: Some(true),
                },
            ),
        },
        transform: TransformConfigView {
            enabled: true,
            mappings: Some(
                seq![
                    ("id"@, "customer_id"@),
                    ("name"@, "customer_name"@),
                    ("email"@, "email_address"@),
                ],
            ),
            group_by: None,
            filters: Some(
                seq![DataFilterView { field: "email"@, condition: "not_null"@, value: None }],
            ),
            conversions: Some(
                seq![
                    (
                        "created_at"@,
                        DataConversionView {
                            from: "timestamp"@,
                            to: "iso8601_string"@,
                            format: None,
                        },
                    ),
                ],
            ),
        },
        endpoint: EndpointConfigView {
            url: "https://api.example.com/customers"@,
            method: "POST"@,
            auth: Some(
                EndpointAuthView::Bearer {
                    token: "${API_TOKEN}"@,
                    header_name: Some("Authorization"@),
                },
            ),
            headers: Some(
                seq![("Content-Type"@, "application/json"@), ("X-Source"@, "yetii-erp-sync"@)],
            ),
            request: RequestConfigView {
                format: "json"@,
                batch_size: Some(100u32),
                timeout_seconds: Some(30u32),
                retry_attempts: Some(3u32),
                retry_delay_seconds: Some(5u32),
                retry_backoff: Some("exponential"@),
            },
            response: Some(
                ResponseConfigView {
                    success_codes: seq![200u16, 201u16, 202u16],
                    handle_duplicates: "skip"@,
                },
            ),
        },
    }
}

/// The example document under the name `config_name`: a Postgres database
/// on this machine, one scheduled query with everything that a query can
/// have, parallel execution and full monitoring.
pub open spec fn example_document(config_name: Seq<char>) -> YetiiConfigView {
    YetiiConfigView {
        version: Some("1.0.0"@),
        name: Some(config_name),
        description: Some("Yetii configuration for ERP data integration and transformation"@),
        databases: DatabaseConfigView {
            name: "main_erp"@,
            db_type: DatabaseType::Postgres,
            connection_string: None,
            host: "localhost"@,
            port: 5432,
            database: "erp_db"@,
            schema: Some("public"@),
            auth: AuthConfigView {
                username: Some("erp_user"@),
                password: Some("${ERP_PASSWORD}"@),
            },
            pool: ConnectionConfig {
                max_connections: Some(10u32),
                timeout_seconds: Some(30u32),
                retry_attempts: Some(3u32),
            },
        },
        global_settings: GlobalSettingsView {
            environment: "development"@,
            error_handling: ErrorHandlingView {
                on_query_error: "log_and_continue"@,
                on_transform_error: "stop"@,
                on_endpoint_error: "retry"@,
                max_retries: 3,
            },
            logging: LoggingView {
                level: "info"@,
                format: "json"@,
                output: "file"@,
                file_path: Some("./logs/yetii.log"@),
                rotation: Some(LogRotation { max_size_mb: 100, max_files: 10 }),
            },
            security: SecuritySettings {
                encrypt_config: false,
                validate_ssl: true,
                timeout_seconds: Some(300u32),
            },
        },
        queries: seq![example_query()],
        execution: ExecutionConfigView {
            mode: "parallel"@,
            global_timeout_minutes: Some(60u32),
            state_management: Some(
                StateManagementView {
                    enabled: true,
                    state_file: "./state/yetii_state.json"@,
                    backup_states: 5,
                },
            ),
            scheduler: Some(
                SchedulerConfigView {
                    enabled: true,
                    max_concurrent_jobs: 5,
                    job_timeout_minutes: 30,
                    missed_job_policy: "skip"@,
                },
            ),
        },
        monitoring: Some(
            MonitoringConfigView {
                enabled: true,
                metrics: Some(
                    MetricsConfigView {
                        enabled: true,
                        endpoint: "http://localhost:9090/metrics"@,
                        interval_seconds: 30,
                    },
                ),
                health_check: Some(
                    HealthCheckConfigView { enabled: true, endpoint: "/health"@, port: 8080 },
                ),
                notifications: Some(
                    NotificationSettingsView {
                        on_failure: true,
                        on_success: false,
                        channels: seq![
                            NotificationChannelView::Webhook {
                                url: "https://hooks.slack.com/services/..."@,
                            },
                        ],
                    },
                ),
            },
        ),
        environments: None,
    }
}

/// The cron expression of the example, every six hours, has five fields.
proof fn lemma_example_cron_has_five_fields()
    ensures
        token_count("0 */6 * * *"@) == 5,
{
    let s = "0 */6 * * *"@;
    reveal_strlit("0 */6 * * *");
    assert(s.take(0) =~= Seq::<char>::empty());
    lemma_token_count_step(s, 0);
    lemma_token_count_step(s, 1);
    lemma_token_count_step(s, 2);
    lemma_token_count_step(s, 3);
    lemma_token_count_step(s, 4);
    lemma_token_count_step(s, 5);
    lemma_token_count_step(s, 6);
    lemma_token_count_step(s, 7);
    lemma_token_count_step(s, 8);
    lemma_token_count_step(s, 9);
    lemma_token_count_step(s, 10);
    assert(s.take(11) =~= s);
}

/// The example document keeps every rule, whatever its name: what `init`
/// writes can be loaded as it stands.
pub proof fn lemma_example_document_is_accepted(config_name: Seq<char>)
    ensures
        example_document(config_name).check() is Ok,
{
    let doc = example_document(config_name);
    reveal_strlit("main_erp");
    reveal_strlit("localhost");
    reveal_strlit("erp_db");
    assert(!white_space("main_erp"@[0]));
    assert(!white_space("localhost"@[0]));
    assert(!white_space("erp_db"@[0]));
    assert(doc.databases.check() is Ok);
    assert(doc.global_settings.check() is Ok);
    let q = example_query();
    reveal_strlit("customer_data_sync");
    reveal_strlit("https://api.example.com/customers");
    reveal_strlit(
        "SELECT \n  customer_id,\n  customer_name,\n  email,\n  created_at\nFROM customers \nWHERE updated_at > $last_run_time\nORDER BY updated_at",
    );
    assert(!white_space(q.name[0]));
    assert(!white_space(q.endpoint.url[0]));
    assert(!white_space(q.query.sql[0]));
    lemma_example_cron_has_five_fields();
    assert(q.check() is Ok);
    assert(doc.queries[0] == q);
    lemma_queries_pass(doc.queries, 0);
}

fn example_parameters() -> (r: StringMap<QueryParameter>)
    ensures
        Some(r.deep_view()) == example_query().query.parameters,
{
    let mut parameters = StringMap::new();
    parameters.insert(
        String::from_str("last_run_time"),
        QueryParameter {
            param_type: String::from_str("timestamp"),
            default: Some(String::from_str("1970-01-01T00:00:00Z")),
            source: Some(String::from_str("state_file")),
        },
    );
    assert(parameters.deep_view() =~= example_query().query.parameters->0);
    parameters
}

fn example_mappings() -> (r: StringMap<String>)
    ensures
        Some(r.deep_view()) == example_query().transform.mappings,
{
    proof {
        reveal_strlit("id");
        reveal_strlit("name");
        reveal_strlit("email");
    }
    let mut mappings = StringMap::new();
    mappings.insert(String::from_str("id"), String::from_str("customer_id"));
    let ghost one = mappings@;
    assert(one.len() == 1 && one[0].0 == "id"@);
    let target = String::from_str("customer_name");
    proof {
        assert("id"@.len() != "name"@.len());
        lemma_with_entry_absent(one, "name"@, target);
    }
    mappings.insert(String::from_str("name"), target);
    let ghost two = mappings@;
    assert(two.len() == 2 && two[0].0 == "id"@ && two[1].0 == "name"@);
    let target = String::from_str("email_address");
    proof {
        assert("id"@.len() != "email"@.len());
        assert("name"@.len() != "email"@.len());
        lemma_with_entry_absent(two, "email"@, target);
    }
    mappings.insert(String::from_str("email"), target);
    assert(mappings.deep_view() =~= example_query().transform.mappings->0);
    mappings
}

fn example_conversions() -> (r: StringMap<DataConversion>)
    ensures
        Some(r.deep_view()) == example_query().transform.conversions,
{
    let mut conversions = StringMap::new();
    conversions.insert(
        String::from_str("created_at"),
        DataConversion {
            from: String::from_str("timestamp"),
            to: String::from_str("iso8601_string"),
            format: None,
        },
    );
    assert(conversions.deep_view() =~= example_query().transform.conversions->0);
    conversions
}

fn example_headers() -> (r: StringMap<String>)
    ensures
        Some(r.deep_view()) == example_query().endpoint.headers,
{
    proof {
        reveal_strlit("Content-Type");
        reveal_strlit("X-Source");
    }
    let mut headers = StringMap::new();
    headers.insert(String::from_str("Content-Type"), String::from_str("application/json"));
    let ghost one = headers@;
    assert(one.len() == 1 && one[0].0 == "Content-Type"@);
    let source = String::from_str("yetii-erp-sync");
    proof {
        assert("Content-Type"@.len() != "X-Source"@.len());
        lemma_with_entry_absent(one, "X-Source"@, source);
    }
    headers.insert(String::from_str("X-Source"), source);
    assert(headers.deep_view() =~= example_query().endpoint.headers->0);
    headers
}

fn example_query_config() -> (r: QueryConfig)
    ensures
        r.deep_view() == example_query(),
{
    let mut filters = Vec::new();
    filters.push(
        DataFilter {
            field: String::from_str("email"),
            condition: String::from_str("not_null"),
            value: None,
        },
    );
    assert(filters.deep_view() =~= example_query().transform.filters->0);
    let mut success_codes: Vec<u16> = Vec::new();
    success_codes.push(200);
    success_codes.push(201);
    success_codes.push(202);
    assert(success_codes@ =~= seq![200u16, 201u16, 202u16]);
    QueryConfig {
        name: String::from_str("customer_data_sync"),
        description: String::from_str("Sync customer data from ERP to external system"),
        enabled: true,
        database: Some(String::from_str("main_erp")),
        schedule: Some(
            ScheduleConfig {
                cron: String::from_str("0 */6 * * *"),
                timezone: String::from_str("UTC"),
                enabled: true,
            },
        ),
        query: SqlQuery {
            sql: String::from_str(
                "SELECT \n  customer_id,\n  customer_name,\n  email,\n  created_at\nFROM customers \nWHERE updated_at > $last_run_time\nORDER BY updated_at",
            ),
            parameters: Some(example_parameters()),
            validation: Some(
                QueryValidation {
                    strict_mapping: Some(true),
                    warn_unmapped_columns: Some(true),
                    validate_filter_fields: Some(true),
                },
            ),
        },
        transform: TransformConfig {
            enabled: true,
            mappings: Some(example_mappings()),
            group_by: None,
            filters: Some(filters),
            conversions: Some(example_conversions()),
        },
        endpoint: EndpointConfig {
            url: String::from_str("https://api.example.com/customers"),
            method: String::from_str("POST"),
            auth: Some(
                EndpointAuth::Bearer {
                    token: String::from_str("${API_TOKEN}"),
                    header_name: Some(String::from_str("Authorization")),
                },
            ),
            headers: Some(example_headers()),
            request: RequestConfig {
                format: String::from_str("json"),
                batch_size: Some(100),
                timeout_seconds: Some(30),
                retry_attempts: Some(3),
                retry_delay_seconds: Some(5),
                retry_backoff: Some(String::from_str("exponential")),
            },
            response: Some(
                ResponseConfig { success_codes, handle_duplicates: String::from_str("skip") },
            ),
        },
    }
}

/// Builds the example document under the name `config_name`.
pub fn create_default_config(config_name: &str) -> (r: YetiiConfig)
    ensures
        r.deep_view() == example_document(config_name@),
{
    let mut queries = Vec::new();
    queries.push(example_query_config());
    assert(queries.deep_view() =~= seq![example_query()]);
    let mut channels = Vec::new();
    channels.push(
        NotificationChannel::Webhook { url: String::from_str("https://hooks.slack.com/services/...") },
    );
    assert(channels.deep_view() =~= example_document(config_name@).monitoring->0.notifications->0.channels);
    YetiiConfig {
        version: Some(String::from_str("1.0.0")),
        name: Some(String::from_str(config_name)),
        description: Some(
            String::from_str("Yetii configuration for ERP data integration and transformation"),
        ),
        databases: DatabaseConfig {
            name: String::from_str("main_erp"),
            db_type: DatabaseType::Postgres,
            connection_string: None,
            host: String::from_str("localhost"),
            port: 5432,
            database: String::from_str("erp_db"),
            schema: Some(String::from_str("public")),
            auth: AuthConfig {
                username: Some(String::from_str("erp_user")),
                password: Some(String::from_str("${ERP_PASSWORD}")),
            },
            pool: ConnectionConfig {
                max_connections: Some(10),
                timeout_seconds: Some(30),
                retry_attempts: Some(3),
            },
        },
        global_settings: GlobalSettings {
            environment: String::from_str("development"),
            error_handling: ErrorHandling {
                on_query_error: String::from_str("log_and_continue"),
                on_transform_error: String::from_str("stop"),
                on_endpoint_error: String::from_str("retry"),
                max_retries: 3,
            },
            logging: Logging {
                level: String::from_str("info"),
                format: String::from_str("json"),
                output: String::from_str("file"),
                file_path: Some(String::from_str("./logs/yetii.log")),
                rotation: Some(LogRotation { max_size_mb: 100, max_files: 10 }),
            },
            security: SecuritySettings {
                encrypt_config: false,
                validate_ssl: true,
                timeout_seconds: Some(300),
            },
        },
        queries,
        execution: ExecutionConfig {
            mode: String::from_str("parallel"),
            global_timeout_minutes: Some(60),
            state_management: Some(
                StateManagement {
                    enabled: true,
                    state_file: String::from_str("./state/yetii_state.json"),
                    backup_states: 5,
                },
            ),
            scheduler: Some(
                SchedulerConfig {
                    enabled: true,
                    max_concurrent_jobs: 5,
                    job_timeout_minutes: 30,
                    missed_job_policy: String::from_str("skip"),
                },
            ),
        },
        monitoring: Some(
            MonitoringConfig {
                enabled: true,
                metrics: Some(
                    MetricsConfig {
                        enabled: true,
                        endpoint: String::from_str("http://localhost:9090/metrics"),
                        interval_seconds: 30,
                    },
                ),
                health_check: Some(
                    HealthCheckConfig {
                        enabled: true,
                        endpoint: String::from_str("/health"),
                        port: 8080,
                    },
                ),
                notifications: Some(
                    NotificationSettings { on_failure: true, on_success: false, channels },
                ),
            },
        ),
        environments: None,
    }
}

/// What `str::to_lowercase` makes of a text: each character in its lower
/// case as Unicode defines it, whatever the machine and the language of its
/// user.
pub uninterp spec fn lowercase(s: Seq<char>) -> Seq<char>;

/// `str::to_lowercase`: the text in lower case.
#[verifier::external_body]
fn to_lowercase(s: &str) -> (r: String)
    ensures
        r@ == lowercase(s@),
{
    s.to_lowercase()
}

/// The answers, in lower case, that allow a file to be overwritten.
pub open spec fn yes(lowered: Seq<char>) -> bool {
    lowered == "y"@ || lowered == "yes"@
}

/// Whether an answer that was trimmed and put in lower case allows a file to
/// be overwritten.
pub fn is_yes(lowered: &str) -> (r: bool)
    ensures
        r == yes(lowered@),
{
    same_text(lowered, "y") || same_text(lowered, "yes")
}

/// Whether `answer`, as typed at the question whether a file may be
/// overwritten, allows it: `y` or `yes`, in capitals or not, with any white
/// space around it. Everything else, the empty answer too, refuses.
pub fn confirms_overwrite(answer: &str) -> (r: bool)
    ensures
        r == yes(lowercase(trimmed(answer@))),
{
    let lowered = to_lowercase(trim(answer));
    is_yes(lowered.as_str())
}

/// The first line of the file that `init` writes, and the second up to the
/// version.
pub const BANNER: &'static str = "# Yetii Configuration File\n# Version: ";

/// What stands between the version and the description.
pub const DESCRIPTION_LABEL: &'static str = "\n# Description: ";

/// What stands between the description and the document.
pub const PREAMBLE: &'static str = "\n#\n# This configuration file defines database connections, queries, transformations,\n# and API endpoints for the Yetii ERP integration system.\n\n";

/// The notes for the reader, which stand below the document.
pub const NOTES: &'static str = "\n\n# Configuration Notes:\n#\n# Database Configuration:\n# - Supports PostgreSQL, MySQL, MSSQL, Oracle, and ODBC connections\n# - Use environment variables for sensitive data like passwords (${VAR_NAME})\n# - Connection pooling helps manage database resources efficiently\n#\n# Query Configuration:\n# - Each query can have its own schedule using cron expressions\n# - Transformations allow field mapping, filtering, and data type conversions\n# - Validation settings help catch configuration errors early\n#\n# Scheduling:\n# - Cron format: \"second minute hour day_of_month month day_of_week\"\n# - Common examples:\n#   * \"0 */6 * * *\"   - Every 6 hours\n#   * \"0 0 * * *\"     - Daily at midnight\n#   * \"0 0 * * 1\"     - Weekly on Mondays\n#   * \"0 9-17 * * 1-5\" - Weekdays 9 AM to 5 PM\n#\n# Error Handling Options:\n# - stop: Stop execution on error\n# - log_and_continue: Log error but continue processing\n# - retry: Attempt to retry the operation\n#\n# Environment Variables:\n# - Use ${VARIABLE_NAME} syntax for environment variable substitution\n# - Recommended for passwords, API keys, and environment-specific values\n#\n# For more information, visit: https://docs.yetii.io\n";

/// The version that the comments give for a document without one.
pub const UNKNOWN_VERSION: &'static str = "0.0.1";

/// The description that the comments give for a document without one.
pub const UNKNOWN_DESCRIPTION: &'static str = "Yetii ERP Integration";

/// The text of the file that `init` writes for `doc`, where `yaml` is the
/// document in YAML: a banner with the document's version and description,
/// the YAML itself, and the notes.
pub open spec fn commented(doc: YetiiConfigView, yaml: Seq<char>) -> Seq<char> {
    let version = match doc.version {
        Some(version) => version,
        None => UNKNOWN_VERSION@,
    };
    let description = match doc.description {
        Some(description) => description,
        None => UNKNOWN_DESCRIPTION@,
    };
    BANNER@ + version + DESCRIPTION_LABEL@ + description + PREAMBLE@ + yaml + NOTES@
}

/// Puts the comments around `yaml`, the YAML text of `config`.
pub fn generate_commented_yaml(config: &YetiiConfig, yaml: &str) -> (r: String)
    ensures
        r@ == commented(config.deep_view(), yaml@),
{
    let mut r = String::from_str(BANNER);
    match &config.version {
        Some(version) => r.append(version.as_str()),
        None => r.append(UNKNOWN_VERSION),
    }
    r.append(DESCRIPTION_LABEL);
    match &config.description {
        Some(description) => r.append(description.as_str()),
        None => r.append(UNKNOWN_DESCRIPTION),
    }
    r.append(PREAMBLE);
    r.append(yaml);
    r.append(NOTES);
    r
}

} // verus!
