//! The security settings.

use crate::config::connection_config::outside;
use crate::config::error::{ConfigError, ConfigErrorView, outcome};
use crate::config::utils::default_timeout_seconds;
use vstd::prelude::*;
use vstd::string::StringExecFns;

verus! {

/// How the tool guards its configuration and its connections.
#[derive(Debug, Clone, Copy, PartialEq)]
pub struct SecuritySettings {
    pub encrypt_config: bool,
    pub validate_ssl: bool,
    pub timeout_seconds: Option<u32>,
}

impl DeepView for SecuritySettings {
    type V = SecuritySettings;

    open spec fn deep_view(&self) -> SecuritySettings {
        *self
    }
}

impl SecuritySettings {
    /// The security of a document that names none: nothing encrypted, no
    /// certificate checked, thirty seconds.
    pub open spec fn default_value() -> SecuritySettings {
        SecuritySettings { encrypt_config: false, validate_ssl: false, timeout_seconds: Some(30u32) }
    }

    /// The one rule: a timeout of at most 600 seconds. The field is reported
    /// under `security`.
    pub open spec fn check(self) -> Result<(), ConfigErrorView> {
        if outside(self.timeout_seconds, 0, 600) {
            Err(
                ConfigErrorView::OutOfRange {
                    field: "security.timeout_seconds"@,
                    value: self.timeout_seconds->0,
                },
            )
        } else {
            Ok(())
        }
    }

    /// Checks the settings and reports the rule if they break it.
    pub fn validate(&self) -> (r: Result<(), ConfigError>)
        ensures
            outcome(r) == self.check(),
    {
        if let Some(n) = self.timeout_seconds {
            if n > 600 {
                return Err(
                    ConfigError::OutOfRange { field: String::from_str("security.timeout_seconds"), value: n },
                );
            }
        }
        Ok(())
    }
}

impl Default for SecuritySettings {
    fn default() -> (r: Self)
        ensures
            r == SecuritySettings::default_value(),
    {
        SecuritySettings {
            encrypt_config: false,
            validate_ssl: false,
            timeout_seconds: default_timeout_seconds(),
        }
    }
}

} // verus!
