//! The settings of the log.

use crate::config::error::{ConfigError, ConfigErrorView, outcome};
use crate::config::utils::{default_log_format, default_log_level, default_log_output};
use crate::text::same_text;
use vstd::prelude::*;
use vstd::string::StringExecFns;

verus! {

/// When a log file is rotated and how many are kept.
#[derive(Debug, Clone, Copy, PartialEq, Default)]
pub struct LogRotation {
    pub max_size_mb: u32,
    pub max_files: u32,
}

impl DeepView for LogRotation {
    type V = LogRotation;

    open spec fn deep_view(&self) -> LogRotation {
        *self
    }
}

/// How the tool logs: how much, in which format, and where to.
#[derive(Debug, PartialEq)]
pub struct Logging {
    pub level: String,
    pub format: String,
    pub output: String,
    pub file_path: Option<String>,
    pub rotation: Option<LogRotation>,
}

/// The model of [`Logging`]: its texts as sequences of characters.
pub struct LoggingView {
    pub level: Seq<char>,
    pub format: Seq<char>,
    pub output: Seq<char>,
    pub file_path: Option<Seq<char>>,
    pub rotation: Option<LogRotation>,
}

impl DeepView for Logging {
    type V = LoggingView;

    open spec fn deep_view(&self) -> LoggingView {
        LoggingView {
            level: self.level@,
            format: self.format@,
            output: self.output@,
            file_path: self.file_path.deep_view(),
            rotation: self.rotation,
        }
    }
}

impl Clone for Logging {
    fn clone(&self) -> (r: Self)
        ensures
            r.deep_view() == self.deep_view(),
    {
        Logging {
            level: self.level.clone(),
            format: self.format.clone(),
            output: self.output.clone(),
            file_path: self.file_path.clone(),
            rotation: self.rotation,
        }
    }
}

/// The log levels: `trace`, `debug`, `info`, `warn`, `error`.
pub open spec fn log_level(s: Seq<char>) -> bool {
    s == "trace"@ || s == "debug"@ || s == "info"@ || s == "warn"@ || s == "error"@
}

/// The log formats: `json`, `plain`, `structured`.
pub open spec fn log_format(s: Seq<char>) -> bool {
    s == "json"@ || s == "plain"@ || s == "structured"@
}

/// Whether `s` is a log level.
pub fn is_log_level(s: &str) -> (r: bool)
    ensures
        r == log_level(s@),
{
    same_text(s, "trace") || same_text(s, "debug") || same_text(s, "info") || same_text(s, "warn")
        || same_text(s, "error")
}

/// Whether `s` is a log format.
pub fn is_log_format(s: &str) -> (r: bool)
    ensures
        r == log_format(s@),
{
    same_text(s, "json") || same_text(s, "plain") || same_text(s, "structured")
}

impl LoggingView {
    /// The logging of a document that names none: level `info`, format
    /// `json`, output to the console.
    pub open spec fn default_value() -> LoggingView {
        LoggingView {
            level: "info"@,
            format: "json"@,
            output: "console"@,
            file_path: None,
            rotation: None,
        }
    }

    /// The first rule that the logging breaks, if any: a known level, then a
    /// known format. The field is reported under `logging`.
    pub open spec fn check(self) -> Result<(), ConfigErrorView> {
        if !log_level(self.level) {
            Err(ConfigErrorView::InvalidValue { field: "logging.level"@, value: self.level })
        } else if !log_format(self.format) {
            Err(ConfigErrorView::InvalidValue { field: "logging.format"@, value: self.format })
        } else {
            Ok(())
        }
    }
}

impl Logging {
    /// Checks the logging and reports the first rule that it breaks.
    pub fn validate(&self) -> (r: Result<(), ConfigError>)
        ensures
            outcome(r) == self.deep_view().check(),
    {
        if !is_log_level(self.level.as_str()) {
            return Err(
                ConfigError::InvalidValue {
                    field: String::from_str("logging.level"),
                    value: self.level.clone(),
                },
            );
        }
        if !is_log_format(self.format.as_str()) {
            return Err(
                ConfigError::InvalidValue {
                    field: String::from_str("logging.format"),
                    value: self.format.clone(),
                },
            );
        }
        Ok(())
    }
}

impl Default for Logging {
    fn default() -> (r: Self)
        ensures
            r.deep_view() == LoggingView::default_value(),
    {
        Logging {
            level: default_log_level(),
            format: default_log_format(),
            output: default_log_output(),
            file_path: None,
            rotation: None,
        }
    }
}

} // verus!
