//! The configuration engine: the schema of a document, the rules that a
//! document must keep, and the state that holds the document in force.

pub mod connection_config;
pub mod database;
pub mod endpoint_config;
pub mod environment_config;
pub mod error;
pub mod error_handling;
pub mod execution_config;
pub mod global_settings;
pub mod laws;
pub mod logging;
pub mod monitor_config;
pub mod query_config;
pub mod request_config;
pub mod schedule_config;
pub mod security_settings;
pub mod shared;
pub mod sql_query;
pub mod string_map;
pub mod transform_config;
pub mod utils;
pub mod watch;
pub mod yetii;

pub use error::ConfigError;
use error::{ConfigErrorView, outcome};
use vstd::prelude::*;
use yetii::{YetiiConfig, YetiiConfigView};

verus! {

/// The holder of the one document that is in force. It is empty until a
/// first document is installed; from then on it always holds a whole
/// document, which only [`ConfigState::replace`] exchanges, in one step.
#[derive(Debug)]
pub struct ConfigState {
    current: Option<YetiiConfig>,
}

impl DeepView for ConfigState {
    type V = Option<YetiiConfigView>;

    closed spec fn deep_view(&self) -> Option<YetiiConfigView> {
        self.current.deep_view()
    }
}

/// What installing `document` as the first document makes of a holder in
/// `state`, and what it answers: an empty holder takes the document, a full
/// one keeps its own and refuses.
pub open spec fn initialized(state: Option<YetiiConfigView>, document: YetiiConfigView) -> (
    Option<YetiiConfigView>,
    Result<(), ConfigErrorView>,
) {
    match state {
        None => (Some(document), Ok(())),
        Some(_) => (state, Err(ConfigErrorView::ConfigAlreadySet)),
    }
}

/// What exchanging the document in force for `document` makes of a holder in
/// `state`, and what it answers: a full holder takes the new document whole,
/// an empty one stays empty and refuses.
pub open spec fn replaced(state: Option<YetiiConfigView>, document: YetiiConfigView) -> (
    Option<YetiiConfigView>,
    Result<(), ConfigErrorView>,
) {
    match state {
        Some(_) => (Some(document), Ok(())),
        None => (state, Err(ConfigErrorView::NotInitialized)),
    }
}

/// What loading `document` at start makes of a holder in `state`: a
/// document that breaks a rule is refused with that rule and changes
/// nothing; one that keeps the rules is installed as the first document.
pub open spec fn loaded_once(state: Option<YetiiConfigView>, document: YetiiConfigView) -> (
    Option<YetiiConfigView>,
    Result<(), ConfigErrorView>,
) {
    if document.check() is Err {
        (state, document.check())
    } else {
        initialized(state, document)
    }
}

/// What reloading with `document` makes of a holder in `state`: a
/// document that breaks a rule is refused with that rule and the document in
/// force stays; one that keeps the rules takes its place.
pub open spec fn reloaded(state: Option<YetiiConfigView>, document: YetiiConfigView) -> (
    Option<YetiiConfigView>,
    Result<(), ConfigErrorView>,
) {
    if document.check() is Err {
        (state, document.check())
    } else {
        replaced(state, document)
    }
}

impl Clone for ConfigState {
    fn clone(&self) -> (r: Self)
        ensures
            r.deep_view() == self.deep_view(),
    {
        ConfigState { current: self.current.clone() }
    }
}

impl ConfigState {
    /// A holder with no document in it.
    pub fn new() -> (r: Self)
        ensures
            r.deep_view() is None,
    {
        ConfigState { current: None }
    }

    /// Whether a first document was installed.
    pub fn is_initialized(&self) -> (r: bool)
        ensures
            r == self.deep_view().is_some(),
    {
        self.current.is_some()
    }

    /// Installs the first document. A second call is refused with
    /// `ConfigAlreadySet` and leaves the first document in force.
    pub fn initialize(&mut self, document: YetiiConfig) -> (r: Result<(), ConfigError>)
        ensures
            (final(self).deep_view(), outcome(r)) == initialized(
                old(self).deep_view(),
                document.deep_view(),
            ),
    {
        if self.current.is_some() {
            return Err(ConfigError::ConfigAlreadySet);
        }
        self.current = Some(document);
        Ok(())
    }

    /// The document in force, to read. Before a first document is installed
    /// there is none, and the answer is `NotInitialized`.
    pub fn current(&self) -> (r: Result<&YetiiConfig, ConfigError>)
        ensures
            match r {
                Ok(document) => self.deep_view() == Some(document.deep_view()),
                Err(e) => self.deep_view() is None && e.deep_view()
                    == ConfigErrorView::NotInitialized,
            },
    {
        match &self.current {
            Some(document) => Ok(document),
            None => Err(ConfigError::NotInitialized),
        }
    }

    /// Puts `document` in the place of the document in force, whole. A copy
    /// of the earlier document that a reader took is a value of its own and
    /// stays as it was.
    pub fn replace(&mut self, document: YetiiConfig) -> (r: Result<(), ConfigError>)
        ensures
            (final(self).deep_view(), outcome(r)) == replaced(
                old(self).deep_view(),
                document.deep_view(),
            ),
    {
        if self.current.is_none() {
            return Err(ConfigError::NotInitialized);
        }
        self.current = Some(document);
        Ok(())
    }
}

/// Checks a document against every rule and reports the first that it
/// breaks.
pub fn validate_config(config: &YetiiConfig) -> (r: Result<(), ConfigError>)
    ensures
        outcome(r) == config.deep_view().check(),
{
    config.validate()
}

/// Accepts a document that was read and parsed: it is handed back when it
/// keeps every rule, and refused with the first rule that it breaks
/// otherwise. The holder of the document in force is not involved.
pub fn load_config(document: YetiiConfig) -> (r: Result<YetiiConfig, ConfigError>)
    ensures
        match r {
            Ok(accepted) => document.deep_view().check() is Ok && accepted.deep_view()
                == document.deep_view(),
            Err(e) => document.deep_view().check() == Err::<(), ConfigErrorView>(e.deep_view()),
        },
{
    match validate_config(&document) {
        Ok(()) => Ok(document),
        Err(e) => Err(e),
    }
}

/// Accepts a document at start and installs it as the first document in
/// force. A document that breaks a rule is refused and nothing is
/// installed.
pub fn load_config_once(state: &mut ConfigState, document: YetiiConfig) -> (r: Result<
    (),
    ConfigError,
>)
    ensures
        (final(state).deep_view(), outcome(r)) == loaded_once(
            old(state).deep_view(),
            document.deep_view(),
        ),
{
    let accepted = match load_config(document) {
        Ok(accepted) => accepted,
        Err(e) => {
            return Err(e);
        },
    };
    state.initialize(accepted)
}

/// Accepts a document that was read again and puts it in force. A document
/// that breaks a rule is refused, and the document in force stays in force.
pub fn reload_config(state: &mut ConfigState, document: YetiiConfig) -> (r: Result<
    (),
    ConfigError,
>)
    ensures
        (final(state).deep_view(), outcome(r)) == reloaded(
            old(state).deep_view(),
            document.deep_view(),
        ),
{
    let accepted = match load_config(document) {
        Ok(accepted) => accepted,
        Err(e) => {
            return Err(e);
        },
    };
    state.replace(accepted)
}

/// The document in force, to read, or `NotInitialized` where none was
/// installed.
pub fn get_config(state: &ConfigState) -> (r: Result<&YetiiConfig, ConfigError>)
    ensures
        match r {
            Ok(document) => state.deep_view() == Some(document.deep_view()),
            Err(e) => state.deep_view() is None && e.deep_view()
                == ConfigErrorView::NotInitialized,
        },
{
    state.current()
}

/// The document in force, for a caller that knows that one was installed.
pub fn get_config_unchecked(state: &ConfigState) -> (r: &YetiiConfig)
    requires
        state.deep_view() is Some,
    ensures
        state.deep_view() == Some(r.deep_view()),
{
    state.current.as_ref().unwrap()
}

/// Whether a first document was installed.
pub fn is_config_initialized(state: &ConfigState) -> (r: bool)
    ensures
        r == state.deep_view().is_some(),
{
    state.is_initialized()
}

} // verus!
