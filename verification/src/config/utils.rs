//! The values that optional settings take when a document leaves them out.

use vstd::prelude::*;
use vstd::string::StringExecFns;

verus! {

/// The version of a document that names none.
pub fn default_version() -> (r: Option<String>)
    ensures
        r.deep_view() == Some("1.0.0"@),
{
    Some(String::from_str("1.0.0"))
}

/// The environment of a document that names none.
pub fn default_environment() -> (r: String)
    ensures
        r@ == "development"@,
{
    String::from_str("development")
}

/// The connections of a pool that names no number.
pub fn default_max_connections() -> (r: Option<u32>)
    ensures
        r == Some(10u32),
{
    Some(10)
}

/// The timeout, in seconds, where none is named.
pub fn default_timeout_seconds() -> (r: Option<u32>)
    ensures
        r == Some(30u32),
{
    Some(30)
}

/// The attempts of a pool that names no number.
pub fn default_retry_attempts() -> (r: Option<u32>)
    ensures
        r == Some(3u32),
{
    Some(3)
}

/// What follows an error where no action is named.
pub fn default_error_action() -> (r: String)
    ensures
        r@ == "stop"@,
{
    String::from_str("stop")
}

/// The retries after an error where no number is named.
pub fn default_max_retries() -> (r: u32)
    ensures
        r == 3,
{
    3
}

/// The time zone of a schedule that names none.
pub fn default_timezone() -> (r: String)
    ensures
        r@ == "UTC"@,
{
    String::from_str("UTC")
}

/// The state of a switch that is on unless it is switched off.
pub fn default_true() -> (r: bool)
    ensures
        r,
{
    true
}

/// The state of a switch that is off unless it is switched on.
pub fn default_false() -> (r: bool)
    ensures
        !r,
{
    false
}

/// The log level where none is named.
pub fn default_log_level() -> (r: String)
    ensures
        r@ == "info"@,
{
    String::from_str("info")
}

/// The log format where none is named.
pub fn default_log_format() -> (r: String)
    ensures
        r@ == "json"@,
{
    String::from_str("json")
}

/// The log output where none is named.
pub fn default_log_output() -> (r: String)
    ensures
        r@ == "console"@,
{
    String::from_str("console")
}

/// The format of requests where none is named.
pub fn default_request_format() -> (r: String)
    ensures
        r@ == "json"@,
{
    String::from_str("json")
}

/// The execution mode where none is named.
pub fn default_execution_mode() -> (r: String)
    ensures
        r@ == "sequential"@,
{
    String::from_str("sequential")
}

} // verus!
