//! The configuration document, its check and its overlay.

use crate::config::database::{DatabaseConfig, DatabaseConfigView};
use crate::config::environment_config::{EnvironmentOverride, EnvironmentOverrideView};
use crate::config::error::{ConfigError, ConfigErrorView, outcome};
use crate::config::execution_config::{ExecutionConfig, ExecutionConfigView};
use crate::config::global_settings::{GlobalSettings, GlobalSettingsView};
use crate::config::monitor_config::{MonitoringConfig, MonitoringConfigView};
use crate::config::query_config::{QueryConfig, QueryConfigView};
use crate::config::string_map::{StringMap, lemma_lookup_deep, lookup};
use crate::config::utils::default_version;
use crate::text::{indexed, indexed_path};
use vstd::prelude::*;
use vstd::string::StringExecFns;

verus! {

/// A configuration document: one database, the settings of the tool, the
/// queries in the order in which they were written, and what single
/// environments set otherwise.
#[derive(Debug, PartialEq)]
pub struct YetiiConfig {
    pub version: Option<String>,
    pub name: Option<String>,
    pub description: Option<String>,
    pub databases: DatabaseConfig,
    pub global_settings: GlobalSettings,
    pub queries: Vec<QueryConfig>,
    pub execution: ExecutionConfig,
    pub monitoring: Option<MonitoringConfig>,
    pub environments: Option<StringMap<EnvironmentOverride>>,
}

/// The model of [`YetiiConfig`]: its texts as sequences of characters.
pub struct YetiiConfigView {
    pub version: Option<Seq<char>>,
    pub name: Option<Seq<char>>,
    pub description: Option<Seq<char>>,
    pub databases: DatabaseConfigView,
    pub global_settings: GlobalSettingsView,
    pub queries: Seq<QueryConfigView>,
    pub execution: ExecutionConfigView,
    pub monitoring: Option<MonitoringConfigView>,
    pub environments: Option<Seq<(Seq<char>, EnvironmentOverrideView)>>,
}

impl DeepView for YetiiConfig {
    type V = YetiiConfigView;

    open spec fn deep_view(&self) -> YetiiConfigView {
        YetiiConfigView {
            version: self.version.deep_view(),
            name: self.name.deep_view(),
            description: self.description.deep_view(),
            databases: self.databases.deep_view(),
            global_settings: self.global_settings.deep_view(),
            queries: self.queries.deep_view(),
            execution: self.execution.deep_view(),
            monitoring: self.monitoring.deep_view(),
            environments: self.environments.deep_view(),
        }
    }
}

impl Clone for YetiiConfig {
    fn clone(&self) -> (r: Self)
        ensures
            r.deep_view() == self.deep_view(),
    {
        let r = YetiiConfig {
            version: self.version.clone(),
            name: self.name.clone(),
            description: self.description.clone(),
            databases: self.databases.clone(),
            global_settings: self.global_settings.clone(),
            queries: self.queries.clone(),
            execution: self.execution.clone(),
            monitoring: self.monitoring.clone(),
            environments: self.environments.clone(),
        };
        assert(r.queries.deep_view() =~= self.queries.deep_view());
        assert(r.environments.deep_view() =~= self.environments.deep_view());
        r
    }
}

/// The first rule that one of the queries from index `from` on breaks, if
/// any: the queries are taken in their order, and what a query breaks is
/// reported under `queries[i]`, where `i` is its index.
pub open spec fn check_queries(queries: Seq<QueryConfigView>, from: int) -> Result<
    (),
    ConfigErrorView,
>
    decreases queries.len() - from,
{
    if from < 0 || from >= queries.len() {
        Ok(())
    } else if queries[from].check_within(indexed("queries"@, from as nat)) is Err {
        queries[from].check_within(indexed("queries"@, from as nat))
    } else {
        check_queries(queries, from + 1)
    }
}

impl YetiiConfigView {
    /// The document of the database `databases` and the queries `queries`
    /// that leaves out all that a document may leave out: its version is
    /// `1.0.0`, its global settings and its execution policy are the
    /// defaults, and it has no monitoring and no environments.
    pub open spec fn new(
        databases: DatabaseConfigView,
        queries: Seq<QueryConfigView>,
    ) -> YetiiConfigView {
        YetiiConfigView {
            version: Some("1.0.0"@),
            name: None,
            description: None,
            databases,
            global_settings: GlobalSettingsView::default_value(),
            queries,
            execution: ExecutionConfigView::default_value(),
            monitoring: None,
            environments: None,
        }
    }

    /// The first rule that the document breaks, if any. In this order: a
    /// version is there; the rules of the database, reported under
    /// `database`; those of the global settings, under `global_settings`;
    /// those of each query in turn, under `queries[i]`; those of the
    /// execution policy, under `execution`.
    pub open spec fn check(self) -> Result<(), ConfigErrorView> {
        if self.version is None {
            Err(ConfigErrorView::MissingRequiredField("version"@))
        } else if self.databases.check_within("database"@) is Err {
            self.databases.check_within("database"@)
        } else if self.global_settings.check_within("global_settings"@) is Err {
            self.global_settings.check_within("global_settings"@)
        } else if check_queries(self.queries, 0) is Err {
            check_queries(self.queries, 0)
        } else {
            self.execution.check()
        }
    }

    /// The document as it holds in the environment `env`: where the
    /// environment is known and sets global settings, a database or a
    /// monitoring of its own, that part takes the place of the document's,
    /// whole; everything else is the document's. An environment that the
    /// document does not know changes nothing.
    pub open spec fn overlaid(self, env: Seq<char>) -> YetiiConfigView {
        match self.environments {
            Some(overrides) => match lookup(overrides, env) {
                Some(o) => YetiiConfigView {
                    global_settings: match o.global_settings {
                        Some(settings) => settings,
                        None => self.global_settings,
                    },
                    databases: match o.databases {
                        Some(database) => database,
                        None => self.databases,
                    },
                    monitoring: match o.monitoring {
                        Some(monitoring) => Some(monitoring),
                        None => self.monitoring,
                    },
                    ..self
                },
                None => self,
            },
            None => self,
        }
    }
}

impl YetiiConfig {
    /// The document of the database `databases` and the queries `queries`;
    /// everything else is as in a document that leaves it out.
    pub fn new(databases: DatabaseConfig, queries: Vec<QueryConfig>) -> (r: Self)
        ensures
            r.deep_view() == YetiiConfigView::new(databases.deep_view(), queries.deep_view()),
    {
        YetiiConfig {
            version: default_version(),
            name: None,
            description: None,
            databases,
            global_settings: GlobalSettings::default(),
            queries,
            execution: ExecutionConfig::default(),
            monitoring: None,
            environments: None,
        }
    }

    /// Checks the whole document and reports the first rule that it breaks.
    pub fn validate(&self) -> (r: Result<(), ConfigError>)
        ensures
            outcome(r) == self.deep_view().check(),
    {
        if self.version.is_none() {
            return Err(ConfigError::MissingRequiredField(String::from_str("version")));
        }
        if let Err(e) = self.databases.validate_within("database") {
            return Err(e);
        }
        if let Err(e) = self.global_settings.validate_within("global_settings") {
            return Err(e);
        }
        let ghost queries = self.deep_view().queries;
        let mut i: usize = 0;
        while i < self.queries.len()
            invariant
                i <= self.queries@.len(),
                queries == self.queries.deep_view(),
                check_queries(queries, 0) == check_queries(queries, i as int),
                self.deep_view().version is Some,
                self.deep_view().databases.check_within("database"@) is Ok,
                self.deep_view().global_settings.check_within("global_settings"@) is Ok,
            decreases self.queries@.len() - i,
        {
            let scope = indexed_path("queries", i);
            if let Err(e) = self.queries[i].validate_within(scope.as_str()) {
                return Err(e);
            }
            i += 1;
        }
        if let Err(e) = self.execution.validate() {
            return Err(e);
        }
        Ok(())
    }

    /// The document as it holds in the environment `env`, as a value of its
    /// own: the document itself is left as it is.
    pub fn for_environment(&self, env: &str) -> (r: Self)
        ensures
            r.deep_view() == self.deep_view().overlaid(env@),
    {
        let mut config = self.clone();
        if let Some(overrides) = &self.environments {
            proof {
                lemma_lookup_deep(overrides@, env@);
            }
            if let Some(env_override) = overrides.get(env) {
                if let Some(global_settings) = &env_override.global_settings {
                    config.global_settings = global_settings.clone();
                }
                if let Some(databases) = &env_override.databases {
                    config.databases = databases.clone();
                }
                if let Some(monitoring) = &env_override.monitoring {
                    config.monitoring = Some(monitoring.clone());
                }
            }
        }
        config
    }
}

} // verus!
