//! The document in force, shared: many may read it at once and one at a
//! time may exchange it.

use crate::config::error::{ConfigError, ConfigErrorView, outcome};
use crate::config::yetii::{YetiiConfig, YetiiConfigView};
use crate::config::{ConfigState, load_config};
use vstd::prelude::*;
use vstd::rwlock::RwLock;

verus! {

/// What holds of a holder at every moment at which it can be seen through a
/// [`SharedConfig`]: the document in it, if there is one, keeps every rule.
pub open spec fn holds_accepted(state: Option<YetiiConfigView>) -> bool {
    state matches Some(doc) ==> doc.check() is Ok
}

/// A holder of the document in force behind a read-write lock. The lock
/// lets no holder in that [`holds_accepted`] does not describe, and hands
/// out and takes back whole holders only: whoever reads, while whoever else
/// reloads, sees one whole document that keeps every rule.
pub struct SharedConfig {
    lock: RwLock<ConfigState, spec_fn(ConfigState) -> bool>,
}

impl SharedConfig {
    #[verifier::type_invariant]
    spec fn well_formed(&self) -> bool {
        forall|state: ConfigState|
            #[trigger] self.lock.inv(state) <==> holds_accepted(state.deep_view())
    }

    /// A shared holder with no document in it.
    pub fn new() -> (r: Self) {
        let ghost accepted = |state: ConfigState| holds_accepted(state.deep_view());
        SharedConfig { lock: RwLock::new(ConfigState::new(), Ghost(accepted)) }
    }

    /// Accepts a document at start and installs it as the first document in
    /// force. The document is checked before the lock is taken. One that
    /// breaks a rule is refused with that rule; one that keeps the rules is
    /// installed, unless a document was installed before.
    pub fn load_once(&self, document: YetiiConfig) -> (r: Result<(), ConfigError>)
        ensures
            document.deep_view().check() is Err ==> outcome(r) == document.deep_view().check(),
            document.deep_view().check() is Ok ==> r is Ok || outcome(r) == Err::<
                (),
                ConfigErrorView,
            >(ConfigErrorView::ConfigAlreadySet),
    {
        proof {
            use_type_invariant(self);
        }
        let accepted = match load_config(document) {
            Ok(accepted) => accepted,
            Err(e) => {
                return Err(e);
            },
        };
        let (mut state, handle) = self.lock.acquire_write();
        let r = state.initialize(accepted);
        handle.release_write(state);
        r
    }

    /// Accepts a document that was read again and puts it in force. The
    /// document is checked before the lock is taken, so that readers wait
    /// for the exchange alone. One that breaks a rule is refused with that
    /// rule; one that keeps the rules takes the place of the document in
    /// force, unless there is none yet.
    pub fn reload(&self, document: YetiiConfig) -> (r: Result<(), ConfigError>)
        ensures
            document.deep_view().check() is Err ==> outcome(r) == document.deep_view().check(),
            document.deep_view().check() is Ok ==> r is Ok || outcome(r) == Err::<
                (),
                ConfigErrorView,
            >(ConfigErrorView::NotInitialized),
    {
        proof {
            use_type_invariant(self);
        }
        let accepted = match load_config(document) {
            Ok(accepted) => accepted,
            Err(e) => {
                return Err(e);
            },
        };
        let (mut state, handle) = self.lock.acquire_write();
        let r = state.replace(accepted);
        handle.release_write(state);
        r
    }

    /// A copy of the holder as it is at one moment. It is the reader's own,
    /// and a later reload leaves it as it is. Whatever others do meanwhile,
    /// the copy is of one whole holder: the document in it, if there is one,
    /// is one document and keeps every rule.
    pub fn snapshot(&self) -> (r: ConfigState)
        ensures
            holds_accepted(r.deep_view()),
    {
        proof {
            use_type_invariant(self);
        }
        let handle = self.lock.acquire_read();
        let r = handle.borrow().clone();
        handle.release_read();
        r
    }

    /// A copy of the document in force, or `NotInitialized` where none was
    /// installed yet. The copy is of one whole document, and that document
    /// keeps every rule.
    pub fn current(&self) -> (r: Result<YetiiConfig, ConfigError>)
        ensures
            match r {
                Ok(document) => document.deep_view().check() is Ok,
                Err(e) => e.deep_view() == ConfigErrorView::NotInitialized,
            },
    {
        proof {
            use_type_invariant(self);
        }
        let handle = self.lock.acquire_read();
        let r = match handle.borrow().current() {
            Ok(document) => Ok(document.clone()),
            Err(e) => Err(e),
        };
        handle.release_read();
        r
    }

    /// Whether a first document was installed when the holder was looked
    /// at.
    pub fn is_initialized(&self) -> (r: bool) {
        let handle = self.lock.acquire_read();
        let r = handle.borrow().is_initialized();
        handle.release_read();
        r
    }
}

} // verus!
