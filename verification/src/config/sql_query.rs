//! The SQL text of a query and its parameters.

use crate::config::error::{ConfigError, ConfigErrorView, outcome};
use crate::config::string_map::StringMap;
use crate::text::{blank, is_blank};
use vstd::prelude::*;
use vstd::string::StringExecFns;

verus! {

/// A named parameter of a query: its type, the value it has when nothing
/// supplies one, and where its value comes from.
#[derive(Debug, PartialEq)]
pub struct QueryParameter {
    pub param_type: String,
    pub default: Option<String>,
    pub source: Option<String>,
}

/// The model of [`QueryParameter`]: its texts as sequences of characters.
pub struct QueryParameterView {
    pub param_type: Seq<char>,
    pub default: Option<Seq<char>>,
    pub source: Option<Seq<char>>,
}

impl DeepView for QueryParameter {
    type V = QueryParameterView;

    open spec fn deep_view(&self) -> QueryParameterView {
        QueryParameterView {
            param_type: self.param_type@,
            default: self.default.deep_view(),
            source: self.source.deep_view(),
        }
    }
}

impl Clone for QueryParameter {
    fn clone(&self) -> (r: Self)
        ensures
            r.deep_view() == self.deep_view(),
    {
        QueryParameter {
            param_type: self.param_type.clone(),
            default: self.default.clone(),
            source: self.source.clone(),
        }
    }
}

/// Which checks the query runner makes on a query's result.
#[derive(Debug, Clone, Copy, PartialEq)]
pub struct QueryValidation {
    pub strict_mapping: Option<bool>,
    pub warn_unmapped_columns: Option<bool>,
    pub validate_filter_fields: Option<bool>,
}

impl DeepView for QueryValidation {
    type V = QueryValidation;

    open spec fn deep_view(&self) -> QueryValidation {
        *self
    }
}

/// The SQL text of a query with its parameters.
#[derive(Debug, PartialEq)]
pub struct SqlQuery {
    pub sql: String,
    pub parameters: Option<StringMap<QueryParameter>>,
    pub validation: Option<QueryValidation>,
}

/// The model of [`SqlQuery`]: its texts as sequences of characters.
pub struct SqlQueryView {
    pub sql: Seq<char>,
    pub parameters: Option<Seq<(Seq<char>, QueryParameterView)>>,
    pub validation: Option<QueryValidation>,
}

impl DeepView for SqlQuery {
    type V = SqlQueryView;

    open spec fn deep_view(&self) -> SqlQueryView {
        SqlQueryView {
            sql: self.sql@,
            parameters: self.parameters.deep_view(),
            validation: self.validation,
        }
    }
}

impl Clone for SqlQuery {
    fn clone(&self) -> (r: Self)
        ensures
            r.deep_view() == self.deep_view(),
    {
        let r = SqlQuery {
            sql: self.sql.clone(),
            parameters: self.parameters.clone(),
            validation: self.validation,
        };
        assert(r.parameters.deep_view() =~= self.parameters.deep_view());
        r
    }
}

impl SqlQueryView {
    /// A query of the text `sql`, without parameters.
    pub open spec fn new(sql: Seq<char>) -> SqlQueryView {
        SqlQueryView { sql, parameters: None, validation: None }
    }

    /// The one rule: the SQL text is not blank. The field is reported as
    /// `query.sql`.
    pub open spec fn check(self) -> Result<(), ConfigErrorView> {
        if blank(self.sql) {
            Err(ConfigErrorView::MissingRequiredField("query.sql"@))
        } else {
            Ok(())
        }
    }
}

impl SqlQuery {
    /// A query of the text `sql`, without parameters.
    pub fn new(sql: String) -> (r: Self)
        ensures
            r.deep_view() == SqlQueryView::new(sql@),
    {
        SqlQuery { sql, parameters: None, validation: None }
    }

    /// Checks the query and reports the rule if it breaks it.
    pub fn validate(&self) -> (r: Result<(), ConfigError>)
        ensures
            outcome(r) == self.deep_view().check(),
    {
        if is_blank(self.sql.as_str()) {
            return Err(ConfigError::MissingRequiredField(String::from_str("query.sql")));
        }
        Ok(())
    }
}

} // verus!
