//! The commands of the tool, and what each needs before it can run.

use vstd::prelude::*;

verus! {

/// What the tool is asked to do.
#[derive(Debug, PartialEq)]
pub enum Commands {
    /// Write an example document into the directory `path`.
    Init { path: String },
    /// Look for ODBC drivers on this machine.
    CheckExistingOdbc,
    /// Run the queries: all of them, or the one named `query`; `force` runs
    /// a query that is switched off.
    Run { query: Option<String>, force: Option<bool> },
    /// Check the document.
    CheckConfig,
}

/// A call of the tool: the document's file and the command.
#[derive(Debug, PartialEq)]
pub struct Yetii {
    pub file: String,
    pub commands: Commands,
}

impl Commands {
    /// Whether the document must be loaded before the command runs. Only
    /// `init`, which writes a document, runs without one.
    pub fn needs_config(&self) -> (r: bool)
        ensures
            r == !(self is Init),
    {
        match self {
            Commands::Init { .. } => false,
            _ => true,
        }
    }

    /// The exit code of the command, where `succeeded` says whether its last
    /// step did. A failure is reported by every command, and ends
    /// `check-config` alone with 1: whoever calls it learns from the code
    /// whether the document keeps the rules.
    pub fn exit_code(&self, succeeded: bool) -> (r: i32)
        ensures
            r == if *self is CheckConfig && !succeeded {
                1i32
            } else {
                0i32
            },
    {
        match self {
            Commands::CheckConfig => if succeeded {
                0
            } else {
                1
            },
            _ => 0,
        }
    }

    /// Whether the document's file is watched while the command runs, and
    /// read again when it changes. Only `run` goes on for long enough.
    pub fn watches_config(&self) -> (r: bool)
        ensures
            r == (self is Run),
    {
        match self {
            Commands::Run { .. } => true,
            _ => false,
        }
    }
}

} // verus!
