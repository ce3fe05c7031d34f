//! What one environment sets otherwise.

use crate::config::database::{DatabaseConfig, DatabaseConfigView};
use crate::config::global_settings::{GlobalSettings, GlobalSettingsView};
use crate::config::monitor_config::{MonitoringConfig, MonitoringConfigView};
use vstd::prelude::*;

verus! {

/// What one environment sets otherwise than the document at large. A part
/// that is absent leaves the document's own part in force.
#[derive(Debug, PartialEq)]
pub struct EnvironmentOverride {
    pub global_settings: Option<GlobalSettings>,
    pub databases: Option<DatabaseConfig>,
    pub monitoring: Option<MonitoringConfig>,
}

/// The model of [`EnvironmentOverride`]: its texts as sequences of characters.
pub struct EnvironmentOverrideView {
    pub global_settings: Option<GlobalSettingsView>,
    pub databases: Option<DatabaseConfigView>,
    pub monitoring: Option<MonitoringConfigView>,
}

impl DeepView for EnvironmentOverride {
    type V = EnvironmentOverrideView;

    open spec fn deep_view(&self) -> EnvironmentOverrideView {
        EnvironmentOverrideView {
            global_settings: self.global_settings.deep_view(),
            databases: self.databases.deep_view(),
            monitoring: self.monitoring.deep_view(),
        }
    }
}

impl Clone for EnvironmentOverride {
    fn clone(&self) -> (r: Self)
        ensures
            r.deep_view() == self.deep_view(),
    {
        EnvironmentOverride {
            global_settings: self.global_settings.clone(),
            databases: self.databases.clone(),
            monitoring: self.monitoring.clone(),
        }
    }
}

} // verus!
