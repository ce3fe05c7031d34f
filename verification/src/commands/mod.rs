//! What the commands of the tool compute, apart from what they read and
//! write.

pub mod initialize;
pub mod odbc;
pub mod run;

use crate::cli::{Commands, Yetii};
use crate::config::error::ConfigErrorView;
use crate::config::laws::lemma_refusal_is_a_rule;
use crate::config::yetii::{YetiiConfig, YetiiConfigView};
use crate::config::{ConfigState, get_config};
use vstd::prelude::*;
use vstd::string::StringExecFns;

verus! {

/// One thing that a command does. What it reads and writes is the caller's
/// to do; what it computes is in this library.
#[derive(Debug, Clone, Copy, PartialEq, Eq)]
pub enum Step {
    /// Write the example document, see [`initialize`].
    WriteExample,
    /// Ask the operating system for its ODBC drivers and print the report,
    /// see [`odbc::odbc_report`].
    ProbeOdbc,
    /// Make sure that the document in force keeps every rule, see
    /// [`run::run`].
    CheckBeforeRun,
    /// Print the report of [`check_config`].
    ReportConfig,
}

/// The steps of each command, in their order.
pub open spec fn steps_of(command: Commands) -> Seq<Step> {
    match command {
        Commands::Init { .. } => seq![Step::WriteExample],
        Commands::CheckExistingOdbc => seq![Step::ProbeOdbc],
        Commands::Run { .. } => seq![Step::ProbeOdbc, Step::CheckBeforeRun],
        Commands::CheckConfig => seq![Step::ReportConfig],
    }
}

/// The steps that the call asks for, in the order in which they are taken.
/// A step that fails is reported and the next is taken all the same. With
/// what the command ends then is said by [`Commands::exit_code`], of the
/// last step.
pub fn going_through_commands(yetii: &Yetii) -> (r: Vec<Step>)
    ensures
        r@ == steps_of(yetii.commands),
{
    let mut steps = Vec::new();
    match &yetii.commands {
        Commands::Init { .. } => {
            steps.push(Step::WriteExample);
        },
        Commands::CheckExistingOdbc => {
            steps.push(Step::ProbeOdbc);
        },
        Commands::Run { .. } => {
            steps.push(Step::ProbeOdbc);
            steps.push(Step::CheckBeforeRun);
        },
        Commands::CheckConfig => {
            steps.push(Step::ReportConfig);
        },
    }
    assert(steps@ =~= steps_of(yetii.commands));
    steps
}

/// What `check-config` says of a document that keeps every rule.
pub const VALID: &'static str = "✅ Yetii configuration file is valid.";

/// What `check-config` says before the rule that a document breaks.
pub const INVALID: &'static str = "❌❌Error validating Yetii configuration file: ";

/// What `check-config` says after the rule that a document breaks.
pub const INVALID_END: &'static str = "❌❌";

/// What the commands say before the reason where no document is in force.
pub const NO_ACCESS: &'static str = "Error accessing configuration: ";

/// What `check-config` reports of a holder in `state`: `Ok` with the words
/// for a document that keeps every rule; `Err` with the rule that the
/// document breaks, its field and value, or with the reason why there is no
/// document.
pub open spec fn check_report(state: Option<YetiiConfigView>) -> Result<Seq<char>, Seq<char>> {
    match state {
        Some(doc) => match doc.check() {
            Ok(()) => Ok(VALID@),
            Err(e) => Err(INVALID@ + e.message() + INVALID_END@),
        },
        None => Err(NO_ACCESS@ + ConfigErrorView::NotInitialized.message()),
    }
}

/// The report of `check-config`: with `Ok` the words are for the standard
/// output and the command has succeeded; with `Err` they are for the error
/// output and the command has failed.
pub fn check_config(state: &ConfigState) -> (r: Result<String, String>)
    ensures
        match r {
            Ok(text) => check_report(state.deep_view()) == Ok::<Seq<char>, Seq<char>>(text@),
            Err(text) => check_report(state.deep_view()) == Err::<Seq<char>, Seq<char>>(text@),
        },
{
    match get_config(state) {
        Ok(cfg) => match YetiiConfig::validate(cfg) {
            Ok(()) => Ok(String::from_str(VALID)),
            Err(e) => {
                proof {
                    lemma_refusal_is_a_rule(cfg.deep_view());
                }
                let reason = e.message();
                let mut text = String::from_str(INVALID);
                text.append(reason.as_str());
                text.append(INVALID_END);
                Err(text)
            },
        },
        Err(e) => {
            let reason = e.message();
            let mut text = String::from_str(NO_ACCESS);
            text.append(reason.as_str());
            Err(text)
        },
    }
}

} // verus!
