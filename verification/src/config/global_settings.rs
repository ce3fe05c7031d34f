//! The settings that hold for the whole tool.

use crate::config::error::{
    ConfigError, ConfigErrorView, field_of, field_path, outcome, place_view, placed,
};
pub use crate::config::error_handling::ErrorHandling;
use crate::config::error_handling::ErrorHandlingView;
pub use crate::config::logging::Logging;
use crate::config::logging::LoggingView;
pub use crate::config::security_settings::SecuritySettings;
use crate::config::utils::default_environment;
use crate::text::same_text;
use vstd::prelude::*;
use vstd::string::StringExecFns;

verus! {

/// The settings that hold for the whole tool in one environment.
#[derive(Debug, PartialEq)]
pub struct GlobalSettings {
    pub environment: String,
    pub error_handling: ErrorHandling,
    pub logging: Logging,
    pub security: SecuritySettings,
}

/// The model of [`GlobalSettings`]: its texts as sequences of characters.
pub struct GlobalSettingsView {
    pub environment: Seq<char>,
    pub error_handling: ErrorHandlingView,
    pub logging: LoggingView,
    pub security: SecuritySettings,
}

impl DeepView for GlobalSettings {
    type V = GlobalSettingsView;

    open spec fn deep_view(&self) -> GlobalSettingsView {
        GlobalSettingsView {
            environment: self.environment@,
            error_handling: self.error_handling.deep_view(),
            logging: self.logging.deep_view(),
            security: self.security,
        }
    }
}

impl Clone for GlobalSettings {
    fn clone(&self) -> (r: Self)
        ensures
            r.deep_view() == self.deep_view(),
    {
        GlobalSettings {
            environment: self.environment.clone(),
            error_handling: self.error_handling.clone(),
            logging: self.logging.clone(),
            security: self.security,
        }
    }
}

/// The environment tags: `development`, `staging`, `production`.
pub open spec fn environment_tag(s: Seq<char>) -> bool {
    s == "development"@ || s == "staging"@ || s == "production"@
}

/// Whether `s` is an environment tag.
pub fn is_environment_tag(s: &str) -> (r: bool)
    ensures
        r == environment_tag(s@),
{
    same_text(s, "development") || same_text(s, "staging") || same_text(s, "production")
}

impl GlobalSettingsView {
    /// The settings of a document that names none: the `development`
    /// environment and the default of each part.
    pub open spec fn default_value() -> GlobalSettingsView {
        GlobalSettingsView {
            environment: "development"@,
            error_handling: ErrorHandlingView::default_value(),
            logging: LoggingView::default_value(),
            security: SecuritySettings::default_value(),
        }
    }

    /// The first rule that the settings break, if any, as it is reported at
    /// `place`. In this order: a known environment tag, then the rules of
    /// the error handling, of the logging and of the security.
    pub open spec fn check_in(self, place: Option<Seq<char>>) -> Result<(), ConfigErrorView> {
        if !environment_tag(self.environment) {
            Err(
                ConfigErrorView::InvalidValue {
                    field: field_of(place, "global_settings"@, "environment"@),
                    value: self.environment,
                },
            )
        } else if self.error_handling.check() is Err {
            placed(self.error_handling.check(), place)
        } else if self.logging.check() is Err {
            placed(self.logging.check(), place)
        } else {
            placed(self.security.check(), place)
        }
    }

    /// The first rule that the settings break, if any, as the settings
    /// report it by themselves: the environment under `global_settings`, and
    /// what a part breaks as the part reports it.
    pub open spec fn check(self) -> Result<(), ConfigErrorView> {
        self.check_in(None)
    }

    /// The first rule that the settings break, if any, as a whole reports it
    /// that holds the settings under `scope`.
    pub open spec fn check_within(self, scope: Seq<char>) -> Result<(), ConfigErrorView> {
        self.check_in(Some(scope))
    }
}

impl GlobalSettings {
    /// Checks the settings by themselves and reports the first rule that
    /// they break: `global_settings.environment`, or what the error
    /// handling, the logging or the security reports.
    pub fn validate(&self) -> (r: Result<(), ConfigError>)
        ensures
            outcome(r) == self.deep_view().check(),
    {
        self.validate_in(None)
    }

    /// Checks the settings for a whole that holds them under `scope`, and
    /// reports the first rule that they break under that scope.
    pub fn validate_within(&self, scope: &str) -> (r: Result<(), ConfigError>)
        ensures
            outcome(r) == self.deep_view().check_within(scope@),
    {
        self.validate_in(Some(scope))
    }

    fn validate_in(&self, place: Option<&str>) -> (r: Result<(), ConfigError>)
        ensures
            outcome(r) == self.deep_view().check_in(place_view(place)),
    {
        if !is_environment_tag(self.environment.as_str()) {
            return Err(
                ConfigError::InvalidValue {
                    field: field_path(place, "global_settings", "environment"),
                    value: self.environment.clone(),
                },
            );
        }
        if let Err(e) = self.error_handling.validate() {
            return Err(e.placed(place));
        }
        if let Err(e) = self.logging.validate() {
            return Err(e.placed(place));
        }
        if let Err(e) = self.security.validate() {
            return Err(e.placed(place));
        }
        Ok(())
    }
}

impl Default for GlobalSettings {
    fn default() -> (r: Self)
        ensures
            r.deep_view() == GlobalSettingsView::default_value(),
    {
        GlobalSettings {
            environment: default_environment(),
            error_handling: ErrorHandling::default(),
            logging: Logging::default(),
            security: SecuritySettings::default(),
        }
    }
}

} // verus!
