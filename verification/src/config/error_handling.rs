//! The policy for errors.

use crate::config::error::{ConfigError, ConfigErrorView, outcome};
use crate::config::utils::{default_error_action, default_max_retries};
use crate::text::same_text;
use vstd::prelude::*;
use vstd::string::StringExecFns;

verus! {

/// What to do when a query, a transformation or an endpoint fails, and how
/// often to retry.
#[derive(Debug, PartialEq)]
pub struct ErrorHandling {
    pub on_query_error: String,
    pub on_transform_error: String,
    pub on_endpoint_error: String,
    pub max_retries: u32,
}

/// The model of [`ErrorHandling`]: its texts as sequences of characters.
pub struct ErrorHandlingView {
    pub on_query_error: Seq<char>,
    pub on_transform_error: Seq<char>,
    pub on_endpoint_error: Seq<char>,
    pub max_retries: u32,
}

impl DeepView for ErrorHandling {
    type V = ErrorHandlingView;

    open spec fn deep_view(&self) -> ErrorHandlingView {
        ErrorHandlingView {
            on_query_error: self.on_query_error@,
            on_transform_error: self.on_transform_error@,
            on_endpoint_error: self.on_endpoint_error@,
            max_retries: self.max_retries,
        }
    }
}

impl Clone for ErrorHandling {
    fn clone(&self) -> (r: Self)
        ensures
            r.deep_view() == self.deep_view(),
    {
        ErrorHandling {
            on_query_error: self.on_query_error.clone(),
            on_transform_error: self.on_transform_error.clone(),
            on_endpoint_error: self.on_endpoint_error.clone(),
            max_retries: self.max_retries,
        }
    }
}

/// The actions that can follow an error: `stop`, `log_and_continue`, `retry`.
pub open spec fn error_action(s: Seq<char>) -> bool {
    s == "stop"@ || s == "log_and_continue"@ || s == "retry"@
}

/// Whether `s` is an action that can follow an error.
pub fn is_error_action(s: &str) -> (r: bool)
    ensures
        r == error_action(s@),
{
    same_text(s, "stop") || same_text(s, "log_and_continue") || same_text(s, "retry")
}

impl ErrorHandlingView {
    /// The policy of a document that names none: stop at every error, three
    /// retries.
    pub open spec fn default_value() -> ErrorHandlingView {
        ErrorHandlingView {
            on_query_error: "stop"@,
            on_transform_error: "stop"@,
            on_endpoint_error: "stop"@,
            max_retries: 3,
        }
    }

    /// The first rule that the policy breaks, if any: the action for a query
    /// error, for a transformation error and for an endpoint error must each
    /// be a known action, and there are at most ten retries. The field is
    /// reported under `error_handling`.
    pub open spec fn check(self) -> Result<(), ConfigErrorView> {
        if !error_action(self.on_query_error) {
            Err(
                ConfigErrorView::InvalidValue {
                    field: "error_handling.on_query_error"@,
                    value: self.on_query_error,
                },
            )
        } else if !error_action(self.on_transform_error) {
            Err(
                ConfigErrorView::InvalidValue {
                    field: "error_handling.on_transform_error"@,
                    value: self.on_transform_error,
                },
            )
        } else if !error_action(self.on_endpoint_error) {
            Err(
                ConfigErrorView::InvalidValue {
                    field: "error_handling.on_endpoint_error"@,
                    value: self.on_endpoint_error,
                },
            )
        } else if self.max_retries > 10 {
            Err(ConfigErrorView::OutOfRange { field: "error_handling.max_retries"@, value: self.max_retries })
        } else {
            Ok(())
        }
    }
}

impl ErrorHandling {
    /// Checks the policy and reports the first rule that it breaks.
    pub fn validate(&self) -> (r: Result<(), ConfigError>)
        ensures
            outcome(r) == self.deep_view().check(),
    {
        if !is_error_action(self.on_query_error.as_str()) {
            return Err(
                ConfigError::InvalidValue {
                    field: String::from_str("error_handling.on_query_error"),
                    value: self.on_query_error.clone(),
                },
            );
        }
        if !is_error_action(self.on_transform_error.as_str()) {
            return Err(
                ConfigError::InvalidValue {
                    field: String::from_str("error_handling.on_transform_error"),
                    value: self.on_transform_error.clone(),
                },
            );
        }
        if !is_error_action(self.on_endpoint_error.as_str()) {
            return Err(
                ConfigError::InvalidValue {
                    field: String::from_str("error_handling.on_endpoint_error"),
                    value: self.on_endpoint_error.clone(),
                },
            );
        }
        if self.max_retries > 10 {
            return Err(
                ConfigError::OutOfRange {
                    field: String::from_str("error_handling.max_retries"),
                    value: self.max_retries,
                },
            );
        }
        Ok(())
    }
}

impl Default for ErrorHandling {
    fn default() -> (r: Self)
        ensures
            r.deep_view() == ErrorHandlingView::default_value(),
    {
        ErrorHandling {
            on_query_error: default_error_action(),
            on_transform_error: default_error_action(),
            on_endpoint_error: default_error_action(),
            max_retries: default_max_retries(),
        }
    }
}

} // verus!
