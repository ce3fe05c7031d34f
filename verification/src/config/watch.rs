//! What the watcher of the document's file does with what it sees.

use vstd::prelude::*;

verus! {

/// What a watcher saw happen to the document's file.
#[derive(Debug, Clone, Copy, PartialEq, Eq)]
pub enum FileEvent {
    /// Something happened, and the watcher cannot say what.
    Any,
    /// The file was opened, read or closed.
    Access,
    /// The file was made.
    Create,
    /// The file's content, name or description was changed.
    Modify,
    /// The file was removed.
    Remove,
    /// Something else, which is no change of the file.
    Other,
}

impl FileEvent {
    /// Whether the document is read again after this event: after a
    /// modification, and after nothing else. A watcher may report one change
    /// of the file as several modifications; each is a reload of its own.
    pub fn triggers_reload(&self) -> (r: bool)
        ensures
            r == (*self is Modify),
    {
        match self {
            FileEvent::Modify => true,
            _ => false,
        }
    }
}

} // verus!
