//! The connection pool of a database.

use crate::config::error::{ConfigError, ConfigErrorView, outcome};
use crate::config::utils::{default_max_connections, default_retry_attempts, default_timeout_seconds};
use vstd::prelude::*;
use vstd::string::StringExecFns;

verus! {

/// The connection pool of a database. Each setting may be left out, and is
/// then bound by no rule.
#[derive(Debug, Clone, Copy, PartialEq)]
pub struct ConnectionConfig {
    pub max_connections: Option<u32>,
    pub timeout_seconds: Option<u32>,
    pub retry_attempts: Option<u32>,
}

impl DeepView for ConnectionConfig {
    type V = ConnectionConfig;

    open spec fn deep_view(&self) -> ConnectionConfig {
        *self
    }
}

/// Whether a setting is present and lies outside the range from `low` to
/// `high`. A setting that is absent lies outside no range.
pub open spec fn outside(setting: Option<u32>, low: u32, high: u32) -> bool {
    setting matches Some(n) && (n < low || n > high)
}

impl ConnectionConfig {
    /// The pool that a database gets when its document names none: ten
    /// connections, thirty seconds, three attempts.
    pub open spec fn default_value() -> ConnectionConfig {
        ConnectionConfig {
            max_connections: Some(10u32),
            timeout_seconds: Some(30u32),
            retry_attempts: Some(3u32),
        }
    }

    /// The first rule that the pool breaks, if any: at least one and at most
    /// 1000 connections, then a timeout of at least one and at most 300
    /// seconds. The field is reported under `pool`.
    pub open spec fn check(self) -> Result<(), ConfigErrorView> {
        if outside(self.max_connections, 1, 1000) {
            Err(
                ConfigErrorView::OutOfRange {
                    field: "pool.max_connections"@,
                    value: self.max_connections->0,
                },
            )
        } else if outside(self.timeout_seconds, 1, 300) {
            Err(
                ConfigErrorView::OutOfRange {
                    field: "pool.timeout_seconds"@,
                    value: self.timeout_seconds->0,
                },
            )
        } else {
            Ok(())
        }
    }

    /// Checks the pool and reports the first rule that it breaks.
    pub fn validate(&self) -> (r: Result<(), ConfigError>)
        ensures
            outcome(r) == self.check(),
    {
        if let Some(n) = self.max_connections {
            if n == 0 || n > 1000 {
                return Err(
                    ConfigError::OutOfRange { field: String::from_str("pool.max_connections"), value: n },
                );
            }
        }
        if let Some(n) = self.timeout_seconds {
            if n == 0 || n > 300 {
                return Err(
                    ConfigError::OutOfRange { field: String::from_str("pool.timeout_seconds"), value: n },
                );
            }
        }
        Ok(())
    }
}

impl Default for ConnectionConfig {
    fn default() -> (r: Self)
        ensures
            r == ConnectionConfig::default_value(),
    {
        ConnectionConfig {
            max_connections: default_max_connections(),
            timeout_seconds: default_timeout_seconds(),
            retry_attempts: default_retry_attempts(),
        }
    }
}

} // verus!
