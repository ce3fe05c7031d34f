//! The policy for requests to an endpoint. No rule binds it.

use crate::config::utils::default_request_format;
use vstd::prelude::*;
use vstd::string::StringExecFns;

verus! {

/// How requests to an endpoint are formed, batched and retried.
#[derive(Debug, PartialEq)]
pub struct RequestConfig {
    pub format: String,
    pub batch_size: Option<u32>,
    pub timeout_seconds: Option<u32>,
    pub retry_attempts: Option<u32>,
    pub retry_delay_seconds: Option<u32>,
    pub retry_backoff: Option<String>,
}

/// The model of [`RequestConfig`]: its texts as sequences of characters.
pub struct RequestConfigView {
    pub format: Seq<char>,
    pub batch_size: Option<u32>,
    pub timeout_seconds: Option<u32>,
    pub retry_attempts: Option<u32>,
    pub retry_delay_seconds: Option<u32>,
    pub retry_backoff: Option<Seq<char>>,
}

impl DeepView for RequestConfig {
    type V = RequestConfigView;

    open spec fn deep_view(&self) -> RequestConfigView {
        RequestConfigView {
            format: self.format@,
            batch_size: self.batch_size,
            timeout_seconds: self.timeout_seconds,
            retry_attempts: self.retry_attempts,
            retry_delay_seconds: self.retry_delay_seconds,
            retry_backoff: self.retry_backoff.deep_view(),
        }
    }
}

impl Clone for RequestConfig {
    fn clone(&self) -> (r: Self)
        ensures
            r.deep_view() == self.deep_view(),
    {
        RequestConfig {
            format: self.format.clone(),
            batch_size: self.batch_size,
            timeout_seconds: self.timeout_seconds,
            retry_attempts: self.retry_attempts,
            retry_delay_seconds: self.retry_delay_seconds,
            retry_backoff: self.retry_backoff.clone(),
        }
    }
}

impl RequestConfigView {
    /// The request policy of an endpoint that names none: JSON in batches of
    /// a hundred, thirty seconds, three attempts a second apart at first and
    /// then exponentially further.
    pub open spec fn default_value() -> RequestConfigView {
        RequestConfigView {
            format: "json"@,
            batch_size: Some(100u32),
            timeout_seconds: Some(30u32),
            retry_attempts: Some(3u32),
            retry_delay_seconds: Some(1u32),
            retry_backoff: Some("exponential"@),
        }
    }
}

impl Default for RequestConfig {
    fn default() -> (r: Self)
        ensures
            r.deep_view() == RequestConfigView::default_value(),
    {
        RequestConfig {
            format: default_request_format(),
            batch_size: Some(100),
            timeout_seconds: Some(30),
            retry_attempts: Some(3),
            retry_delay_seconds: Some(1),
            retry_backoff: Some(String::from_str("exponential")),
        }
    }
}

} // verus!
