//! The check before a run.

use crate::config::error::{ConfigError, ConfigErrorView};
use crate::config::{ConfigState, get_config, validate_config};
use vstd::prelude::*;
use vstd::string::StringExecFns;

verus! {

/// What a run answers once the document in force keeps every rule.
pub const VALIDATED: &'static str = "Configuration validated successfully";

/// Makes sure, before any query runs, that a document is in force and
/// keeps every rule. Where none is in force the answer is `NotInitialized`;
/// where the document breaks a rule, that rule.
pub fn run(state: &ConfigState) -> (r: Result<String, ConfigError>)
    ensures
        match r {
            Ok(text) => {
                &&& state.deep_view() matches Some(doc)
                &&& doc.check() is Ok
                &&& text@ == VALIDATED@
            },
            Err(e) => match state.deep_view() {
                Some(doc) => doc.check() == Err::<(), ConfigErrorView>(e.deep_view()),
                None => e.deep_view() == ConfigErrorView::NotInitialized,
            },
        },
{
    let cfg = match get_config(state) {
        Ok(cfg) => cfg,
        Err(e) => {
            return Err(e);
        },
    };
    if let Err(e) = validate_config(cfg) {
        return Err(e);
    }
    Ok(String::from_str(VALIDATED))
}

} // verus!
