//! What the probe for ODBC drivers reports, once the operating system has
//! answered.

use vstd::prelude::*;
use vstd::string::StringExecFns;

verus! {

/// How the program that lists the drivers is called in a report, where it is
/// `odbcinst`.
pub const ODBCINST: &'static str = "`odbcinst`";

/// What is reported where `odbcinst` is not on this machine.
pub const ODBCINST_MISSING: &'static str = "`odbcinst` not found. Please install unixODBC.";

/// How the program that lists the drivers is called in a report, where it is
/// PowerShell.
pub const POWERSHELL: &'static str = "PowerShell";

/// What is reported where PowerShell is not on this machine.
pub const POWERSHELL_MISSING: &'static str = "PowerShell not found on this system";

/// What stands between the program and what it wrote to its error output,
/// in the report of a probe that failed.
pub const COMMAND_FAILED: &'static str = " command failed: ";

/// How the call of the program that lists the drivers ended.
#[derive(Debug, PartialEq)]
pub enum ProbeOutcome {
    /// The program ran. It succeeded or not, and wrote `stdout` to its
    /// standard output and `stderr` to its error output.
    Ran { success: bool, stdout: String, stderr: String },
    /// The program is not on this machine.
    NotFound,
    /// The program could not be run, for the reason given.
    Failed(String),
}

/// The model of [`ProbeOutcome`]: its texts as sequences of characters.
pub enum ProbeOutcomeView {
    Ran { success: bool, stdout: Seq<char>, stderr: Seq<char> },
    NotFound,
    Failed(Seq<char>),
}

impl DeepView for ProbeOutcome {
    type V = ProbeOutcomeView;

    open spec fn deep_view(&self) -> ProbeOutcomeView {
        match *self {
            ProbeOutcome::Ran { success, stdout, stderr } => ProbeOutcomeView::Ran {
                success,
                stdout: stdout@,
                stderr: stderr@,
            },
            ProbeOutcome::NotFound => ProbeOutcomeView::NotFound,
            ProbeOutcome::Failed(reason) => ProbeOutcomeView::Failed(reason@),
        }
    }
}

/// The report of a probe: what the program wrote to its standard output
/// where it succeeded; where it failed, `program`, the words for a failure
/// and what it wrote to its error output; `missing` where the program is
/// not on this machine; the reason where it could not be run.
pub open spec fn odbc_report_spec(
    program: Seq<char>,
    missing: Seq<char>,
    outcome: ProbeOutcomeView,
) -> Result<Seq<char>, Seq<char>> {
    match outcome {
        ProbeOutcomeView::Ran { success, stdout, stderr } => if success {
            Ok(stdout)
        } else {
            Err(program + COMMAND_FAILED@ + stderr)
        },
        ProbeOutcomeView::NotFound => Err(missing),
        ProbeOutcomeView::Failed(reason) => Err(reason),
    }
}

/// The report of a probe that called `program` and ended with `outcome`:
/// `Ok` with the list of drivers, or `Err` with the words for what went
/// wrong, where `missing` are the words for a program that is not there.
pub fn odbc_report(program: &str, missing: &str, outcome: ProbeOutcome) -> (r: Result<
    String,
    String,
>)
    ensures
        match r {
            Ok(t) => odbc_report_spec(program@, missing@, outcome.deep_view()) == Ok::<
                Seq<char>,
                Seq<char>,
            >(t@),
            Err(t) => odbc_report_spec(program@, missing@, outcome.deep_view()) == Err::<
                Seq<char>,
                Seq<char>,
            >(t@),
        },
{
    match outcome {
        ProbeOutcome::Ran { success, stdout, stderr } => {
            if success {
                Ok(stdout)
            } else {
                let mut text = String::from_str(program);
                text.append(COMMAND_FAILED);
                text.append(stderr.as_str());
                Err(text)
            }
        },
        ProbeOutcome::NotFound => Err(String::from_str(missing)),
        ProbeOutcome::Failed(reason) => Err(reason),
    }
}

} // verus!
