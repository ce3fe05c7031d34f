//! The policy for running the queries.

use crate::config::error::{ConfigError, ConfigErrorView, outcome};
use crate::config::utils::default_execution_mode;
use crate::text::same_text;
use vstd::prelude::*;
use vstd::string::StringExecFns;

verus! {

/// Where the tool keeps what it remembers between runs.
#[derive(Debug, PartialEq)]
pub struct StateManagement {
    pub enabled: bool,
    pub state_file: String,
    pub backup_states: u32,
}

/// The model of [`StateManagement`]: its texts as sequences of characters.
pub struct StateManagementView {
    pub enabled: bool,
    pub state_file: Seq<char>,
    pub backup_states: u32,
}

impl DeepView for StateManagement {
    type V = StateManagementView;

    open spec fn deep_view(&self) -> StateManagementView {
        StateManagementView {
            enabled: self.enabled,
            state_file: self.state_file@,
            backup_states: self.backup_states,
        }
    }
}

impl Clone for StateManagement {
    fn clone(&self) -> (r: Self)
        ensures
            r.deep_view() == self.deep_view(),
    {
        StateManagement {
            enabled: self.enabled,
            state_file: self.state_file.clone(),
            backup_states: self.backup_states,
        }
    }
}

/// How the scheduler runs jobs and what it does with one that it missed.
#[derive(Debug, PartialEq)]
pub struct SchedulerConfig {
    pub enabled: bool,
    pub max_concurrent_jobs: u32,
    pub job_timeout_minutes: u32,
    pub missed_job_policy: String,
}

/// The model of [`SchedulerConfig`]: its texts as sequences of characters.
pub struct SchedulerConfigView {
    pub enabled: bool,
    pub max_concurrent_jobs: u32,
    pub job_timeout_minutes: u32,
    pub missed_job_policy: Seq<char>,
}

impl DeepView for SchedulerConfig {
    type V = SchedulerConfigView;

    open spec fn deep_view(&self) -> SchedulerConfigView {
        SchedulerConfigView {
            enabled: self.enabled,
            max_concurrent_jobs: self.max_concurrent_jobs,
            job_timeout_minutes: self.job_timeout_minutes,
            missed_job_policy: self.missed_job_policy@,
        }
    }
}

impl Clone for SchedulerConfig {
    fn clone(&self) -> (r: Self)
        ensures
            r.deep_view() == self.deep_view(),
    {
        SchedulerConfig {
            enabled: self.enabled,
            max_concurrent_jobs: self.max_concurrent_jobs,
            job_timeout_minutes: self.job_timeout_minutes,
            missed_job_policy: self.missed_job_policy.clone(),
        }
    }
}

/// How the queries of a document are run.
#[derive(Debug, PartialEq)]
pub struct ExecutionConfig {
    pub mode: String,
    pub global_timeout_minutes: Option<u32>,
    pub state_management: Option<StateManagement>,
    pub scheduler: Option<SchedulerConfig>,
}

/// The model of [`ExecutionConfig`]: its texts as sequences of characters.
pub struct ExecutionConfigView {
    pub mode: Seq<char>,
    pub global_timeout_minutes: Option<u32>,
    pub state_management: Option<StateManagementView>,
    pub scheduler: Option<SchedulerConfigView>,
}

impl DeepView for ExecutionConfig {
    type V = ExecutionConfigView;

    open spec fn deep_view(&self) -> ExecutionConfigView {
        ExecutionConfigView {
            mode: self.mode@,
            global_timeout_minutes: self.global_timeout_minutes,
            state_management: self.state_management.deep_view(),
            scheduler: self.scheduler.deep_view(),
        }
    }
}

impl Clone for ExecutionConfig {
    fn clone(&self) -> (r: Self)
        ensures
            r.deep_view() == self.deep_view(),
    {
        ExecutionConfig {
            mode: self.mode.clone(),
            global_timeout_minutes: self.global_timeout_minutes,
            state_management: self.state_management.clone(),
            scheduler: self.scheduler.clone(),
        }
    }
}

/// The execution modes: `parallel`, `sequential`.
pub open spec fn execution_mode(s: Seq<char>) -> bool {
    s == "parallel"@ || s == "sequential"@
}

/// Whether `s` is an execution mode.
pub fn is_execution_mode(s: &str) -> (r: bool)
    ensures
        r == execution_mode(s@),
{
    same_text(s, "parallel") || same_text(s, "sequential")
}

impl ExecutionConfigView {
    /// The execution policy of a document that names none: one query after
    /// the other, an hour for all of them.
    pub open spec fn default_value() -> ExecutionConfigView {
        ExecutionConfigView {
            mode: "sequential"@,
            global_timeout_minutes: Some(60u32),
            state_management: None,
            scheduler: None,
        }
    }

    /// The first rule that the policy breaks, if any: a known mode, then a
    /// global timeout that, where there is one, is not zero. The field is
    /// reported under `execution`.
    pub open spec fn check(self) -> Result<(), ConfigErrorView> {
        if !execution_mode(self.mode) {
            Err(ConfigErrorView::InvalidValue { field: "execution.mode"@, value: self.mode })
        } else if self.global_timeout_minutes == Some(0u32) {
            Err(ConfigErrorView::OutOfRange { field: "execution.global_timeout_minutes"@, value: 0 })
        } else {
            Ok(())
        }
    }
}

impl ExecutionConfig {
    /// Checks the policy and reports the first rule that it breaks.
    pub fn validate(&self) -> (r: Result<(), ConfigError>)
        ensures
            outcome(r) == self.deep_view().check(),
    {
        if !is_execution_mode(self.mode.as_str()) {
            return Err(
                ConfigError::InvalidValue {
                    field: String::from_str("execution.mode"),
                    value: self.mode.clone(),
                },
            );
        }
        if let Some(minutes) = self.global_timeout_minutes {
            if minutes == 0 {
                return Err(
                    ConfigError::OutOfRange {
                        field: String::from_str("execution.global_timeout_minutes"),
                        value: minutes,
                    },
                );
            }
        }
        Ok(())
    }
}

impl Default for ExecutionConfig {
    fn default() -> (r: Self)
        ensures
            r.deep_view() == ExecutionConfigView::default_value(),
    {
        ExecutionConfig {
            mode: default_execution_mode(),
            global_timeout_minutes: Some(60),
            state_management: None,
            scheduler: None,
        }
    }
}

} // verus!
