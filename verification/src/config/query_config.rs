//! A query, with all that belongs to it.

use crate::config::endpoint_config::{EndpointConfig, EndpointConfigView};
use crate::config::error::{
    ConfigError, ConfigErrorView, field_of, field_path, outcome, place_view, placed,
};
use crate::config::schedule_config::{ScheduleConfig, ScheduleConfigView};
use crate::config::sql_query::{SqlQuery, SqlQueryView};
use crate::config::transform_config::{TransformConfig, TransformConfigView};
use crate::config::utils::default_true;
use crate::text::{blank, is_blank};
use vstd::prelude::*;
use vstd::string::StringExecFns;

verus! {

/// One named query: what it asks, when it runs, what is done with its rows
/// and where they are sent.
#[derive(Debug, PartialEq)]
pub struct QueryConfig {
    pub name: String,
    pub description: String,
    pub enabled: bool,
    pub database: Option<String>,
    pub schedule: Option<ScheduleConfig>,
    pub query: SqlQuery,
    pub transform: TransformConfig,
    pub endpoint: EndpointConfig,
}

/// The model of [`QueryConfig`]: its texts as sequences of characters.
pub struct QueryConfigView {
    pub name: Seq<char>,
    pub description: Seq<char>,
    pub enabled: bool,
    pub database: Option<Seq<char>>,
    pub schedule: Option<ScheduleConfigView>,
    pub query: SqlQueryView,
    pub transform: TransformConfigView,
    pub endpoint: EndpointConfigView,
}

impl DeepView for QueryConfig {
    type V = QueryConfigView;

    open spec fn deep_view(&self) -> QueryConfigView {
        QueryConfigView {
            name: self.name@,
            description: self.description@,
            enabled: self.enabled,
            database: self.database.deep_view(),
            schedule: self.schedule.deep_view(),
            query: self.query.deep_view(),
            transform: self.transform.deep_view(),
            endpoint: self.endpoint.deep_view(),
        }
    }
}

impl Clone for QueryConfig {
    fn clone(&self) -> (r: Self)
        ensures
            r.deep_view() == self.deep_view(),
    {
        QueryConfig {
            name: self.name.clone(),
            description: self.description.clone(),
            enabled: self.enabled,
            database: self.database.clone(),
            schedule: self.schedule.clone(),
            query: self.query.clone(),
            transform: self.transform.clone(),
            endpoint: self.endpoint.clone(),
        }
    }
}

impl QueryConfigView {
    /// The query `name` that asks `query` and sends the rows to `endpoint`:
    /// switched on, unscheduled, with the transformation that a query has
    /// when it names none.
    pub open spec fn new(
        name: Seq<char>,
        description: Seq<char>,
        query: SqlQueryView,
        endpoint: EndpointConfigView,
    ) -> QueryConfigView {
        QueryConfigView {
            name,
            description,
            enabled: true,
            database: None,
            schedule: None,
            query,
            transform: TransformConfigView::default_value(),
            endpoint,
        }
    }

    /// The first rule that the query breaks, if any, as it is reported at
    /// `place`. In this order: a name that is not blank, the rule of the
    /// schedule where there is one, the rule of the SQL text, and the rules
    /// of the endpoint. A transformation breaks no rule.
    pub open spec fn check_in(self, place: Option<Seq<char>>) -> Result<(), ConfigErrorView> {
        if blank(self.name) {
            Err(ConfigErrorView::MissingRequiredField(field_of(place, "query"@, "name"@)))
        } else if self.schedule is Some && self.schedule->0.check() is Err {
            placed(self.schedule->0.check(), place)
        } else if self.query.check() is Err {
            placed(self.query.check(), place)
        } else {
            placed(self.endpoint.check(), place)
        }
    }

    /// The first rule that the query breaks, if any, as the query reports it
    /// by itself: its name as `query.name`, and what a part breaks as the
    /// part reports it (`query.sql`, `endpoint.url`, `endpoint.method`).
    pub open spec fn check(self) -> Result<(), ConfigErrorView> {
        self.check_in(None)
    }

    /// The first rule that the query breaks, if any, as a whole reports it
    /// that holds the query under `scope`.
    pub open spec fn check_within(self, scope: Seq<char>) -> Result<(), ConfigErrorView> {
        self.check_in(Some(scope))
    }
}

impl QueryConfig {
    /// The query `name` that asks `query` and sends the rows to `endpoint`;
    /// everything else is as in a document that leaves it out.
    pub fn new(name: String, description: String, query: SqlQuery, endpoint: EndpointConfig) -> (r:
        Self)
        ensures
            r.deep_view() == QueryConfigView::new(
                name@,
                description@,
                query.deep_view(),
                endpoint.deep_view(),
            ),
    {
        QueryConfig {
            name,
            description,
            enabled: default_true(),
            database: None,
            schedule: None,
            query,
            transform: TransformConfig::default(),
            endpoint,
        }
    }

    /// Checks the query by itself and reports the first rule that it
    /// breaks: `query.name`, or what the schedule, the SQL text or the
    /// endpoint reports.
    pub fn validate(&self) -> (r: Result<(), ConfigError>)
        ensures
            outcome(r) == self.deep_view().check(),
    {
        self.validate_in(None)
    }

    /// Checks the query for a whole that holds it under `scope`, and reports
    /// the first rule that it breaks under that scope.
    pub fn validate_within(&self, scope: &str) -> (r: Result<(), ConfigError>)
        ensures
            outcome(r) == self.deep_view().check_within(scope@),
    {
        self.validate_in(Some(scope))
    }

    fn validate_in(&self, place: Option<&str>) -> (r: Result<(), ConfigError>)
        ensures
            outcome(r) == self.deep_view().check_in(place_view(place)),
    {
        if is_blank(self.name.as_str()) {
            return Err(ConfigError::MissingRequiredField(field_path(place, "query", "name")));
        }
        if let Some(schedule) = &self.schedule {
            if let Err(e) = schedule.validate() {
                return Err(e.placed(place));
            }
        }
        if let Err(e) = self.query.validate() {
            return Err(e.placed(place));
        }
        if let Err(e) = self.transform.validate() {
            return Err(e.placed(place));
        }
        if let Err(e) = self.endpoint.validate() {
            return Err(e.placed(place));
        }
        Ok(())
    }
}

} // verus!
