//! The schedule of a query.

use crate::config::error::{ConfigError, ConfigErrorView, outcome};
use crate::config::utils::{default_timezone, default_true};
use crate::text::{count_tokens, token_count};
use vstd::prelude::*;

verus! {

/// When a query runs: a cron expression, read in a time zone.
#[derive(Debug, PartialEq)]
pub struct ScheduleConfig {
    pub cron: String,
    pub timezone: String,
    pub enabled: bool,
}

/// The model of [`ScheduleConfig`]: its texts as sequences of characters.
pub struct ScheduleConfigView {
    pub cron: Seq<char>,
    pub timezone: Seq<char>,
    pub enabled: bool,
}

impl DeepView for ScheduleConfig {
    type V = ScheduleConfigView;

    open spec fn deep_view(&self) -> ScheduleConfigView {
        ScheduleConfigView { cron: self.cron@, timezone: self.timezone@, enabled: self.enabled }
    }
}

impl Clone for ScheduleConfig {
    fn clone(&self) -> (r: Self)
        ensures
            r.deep_view() == self.deep_view(),
    {
        ScheduleConfig {
            cron: self.cron.clone(),
            timezone: self.timezone.clone(),
            enabled: self.enabled,
        }
    }
}

/// A cron expression has the right shape when it is made of five or of six
/// fields with white space between them. What the fields hold is not looked
/// at.
pub open spec fn cron_shape(cron: Seq<char>) -> bool {
    token_count(cron) == 5 || token_count(cron) == 6
}

impl ScheduleConfigView {
    /// The schedule `cron`, read in UTC and switched on.
    pub open spec fn new(cron: Seq<char>) -> ScheduleConfigView {
        ScheduleConfigView { cron, timezone: "UTC"@, enabled: true }
    }

    /// The one rule: the cron expression of a schedule that is enabled has
    /// the right shape. An empty expression has no field, so it has not. A
    /// schedule that is switched off is bound by nothing.
    pub open spec fn check(self) -> Result<(), ConfigErrorView> {
        if self.enabled && !cron_shape(self.cron) {
            Err(ConfigErrorView::InvalidSchedule(self.cron))
        } else {
            Ok(())
        }
    }
}

impl ScheduleConfig {
    /// The schedule `cron`; everything else is as in a document that
    /// leaves it out.
    pub fn new(cron: String) -> (r: Self)
        ensures
            r.deep_view() == ScheduleConfigView::new(cron@),
    {
        ScheduleConfig { cron, timezone: default_timezone(), enabled: default_true() }
    }

    /// Checks the schedule and reports the rule if it breaks it.
    pub fn validate(&self) -> (r: Result<(), ConfigError>)
        ensures
            outcome(r) == self.deep_view().check(),
    {
        if self.enabled {
            let fields = count_tokens(self.cron.as_str());
            if fields != 5 && fields != 6 {
                return Err(ConfigError::InvalidSchedule(self.cron.clone()));
            }
        }
        Ok(())
    }
}

} // verus!
