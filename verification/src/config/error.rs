//! The errors of the configuration engine, and how each is worded.

use crate::text::{decimal, decimal_string, dotted, dotted_path};
use vstd::prelude::*;
use vstd::std_specs::convert::FromSpecImpl;
use vstd::string::StringExecFns;

verus! {

/// `std::io::Error`, carried by [`ConfigError::IoError`]. Nothing is known of
/// what is inside a value of it.
#[verifier::external_type_specification]
#[verifier::external_body]
pub struct ExIoError(std::io::Error);

/// `serde_yaml::Error`, carried by [`ConfigError::SerializationError`]. Nothing
/// is known of what is inside a value of it.
#[verifier::external_type_specification]
#[verifier::external_body]
pub struct ExYamlError(serde_yaml::Error);

/// Why a configuration document was refused, or why the shared configuration
/// state could not serve a request.
#[derive(Debug)]
#[allow(inconsistent_fields)]
pub enum ConfigError {
    /// `field` holds `value`, which is not among the values allowed there.
    InvalidValue { field: String, value: String },
    /// `field` holds the number `value`, which is outside its range.
    OutOfRange { field: String, value: u32 },
    /// The cron expression of an enabled schedule has neither five nor six
    /// fields; it is carried as written.
    InvalidSchedule(String),
    /// The field at this dotted path is required and absent or blank.
    MissingRequiredField(String),
    /// The state was read or replaced before a document was installed.
    NotInitialized,
    /// A writer of the state panicked while it held the lock. This is for
    /// callers that keep a [`ConfigState`](crate::config::ConfigState) behind
    /// a lock of their own; the library's shared holder runs nothing that
    /// can panic while it holds its lock.
    LockPoisoned,
    /// The document could not be read from storage.
    IoError(std::io::Error),
    /// The document could not be parsed into the schema.
    SerializationError(serde_yaml::Error),
    /// A first document was installed where one was installed before.
    ConfigAlreadySet,
}

/// The model of a [`ConfigError`]: texts as sequences of characters.
#[allow(inconsistent_fields)]
pub enum ConfigErrorView {
    InvalidValue { field: Seq<char>, value: Seq<char> },
    OutOfRange { field: Seq<char>, value: u32 },
    InvalidSchedule(Seq<char>),
    MissingRequiredField(Seq<char>),
    NotInitialized,
    LockPoisoned,
    IoError(std::io::Error),
    SerializationError(serde_yaml::Error),
    ConfigAlreadySet,
}

impl DeepView for ConfigError {
    type V = ConfigErrorView;

    open spec fn deep_view(&self) -> ConfigErrorView {
        match *self {
            ConfigError::InvalidValue { field, value } => ConfigErrorView::InvalidValue {
                field: field@,
                value: value@,
            },
            ConfigError::OutOfRange { field, value } => ConfigErrorView::OutOfRange {
                field: field@,
                value,
            },
            ConfigError::InvalidSchedule(cron) => ConfigErrorView::InvalidSchedule(cron@),
            ConfigError::MissingRequiredField(field) => ConfigErrorView::MissingRequiredField(
                field@,
            ),
            ConfigError::NotInitialized => ConfigErrorView::NotInitialized,
            ConfigError::LockPoisoned => ConfigErrorView::LockPoisoned,
            ConfigError::IoError(e) => ConfigErrorView::IoError(e),
            ConfigError::SerializationError(e) => ConfigErrorView::SerializationError(e),
            ConfigError::ConfigAlreadySet => ConfigErrorView::ConfigAlreadySet,
        }
    }
}

/// The outcome of a check, seen through the model of its error.
pub open spec fn outcome(r: Result<(), ConfigError>) -> Result<(), ConfigErrorView> {
    match r {
        Ok(()) => Ok(()),
        Err(e) => Err(e.deep_view()),
    }
}

/// The outcome `r` of checking a part, reported by the whole that holds the
/// part under the name `scope`.
pub open spec fn scoped(r: Result<(), ConfigErrorView>, scope: Seq<char>) -> Result<
    (),
    ConfigErrorView,
> {
    match r {
        Ok(()) => Ok(()),
        Err(e) => Err(e.within(scope)),
    }
}

/// Where a part is checked: by itself, or within a whole that holds it
/// under a scope. A place is the scope, or `None` for a part by itself.
pub open spec fn place_view(place: Option<&str>) -> Option<Seq<char>> {
    match place {
        Some(scope) => Some(scope@),
        None => None,
    }
}

/// The path under which the part named `part` reports its own field
/// `field`: under the part's name where it is checked by itself, under the
/// scope where it is checked within a whole.
pub open spec fn field_of(place: Option<Seq<char>>, part: Seq<char>, field: Seq<char>) -> Seq<
    char,
> {
    match place {
        Some(scope) => dotted(scope, field),
        None => dotted(part, field),
    }
}

/// What a part that is checked at `place` makes of the outcome `r` of one
/// of its own parts: by itself it passes the outcome on as it is, within a
/// whole it reports it under the scope.
pub open spec fn placed(r: Result<(), ConfigErrorView>, place: Option<Seq<char>>) -> Result<
    (),
    ConfigErrorView,
> {
    match place {
        Some(scope) => scoped(r, scope),
        None => r,
    }
}

impl ConfigErrorView {
    /// The same error with its field path placed inside `scope`. An error that
    /// names no field is left as it is.
    pub open spec fn within(self, scope: Seq<char>) -> ConfigErrorView {
        match self {
            ConfigErrorView::InvalidValue { field, value } => ConfigErrorView::InvalidValue {
                field: dotted(scope, field),
                value,
            },
            ConfigErrorView::OutOfRange { field, value } => ConfigErrorView::OutOfRange {
                field: dotted(scope, field),
                value,
            },
            ConfigErrorView::MissingRequiredField(field) => ConfigErrorView::MissingRequiredField(
                dotted(scope, field),
            ),
            other => other,
        }
    }

    /// Whether the error reports a rule that a document breaks.
    pub open spec fn is_rule(self) -> bool {
        ||| self is InvalidValue
        ||| self is OutOfRange
        ||| self is InvalidSchedule
        ||| self is MissingRequiredField
    }

    /// Whether the error carries an error value of the file system or of the
    /// parser, whose wording is theirs.
    pub open spec fn is_foreign(self) -> bool {
        self is IoError || self is SerializationError
    }

    /// What the message of the error begins with; for an error that is not
    /// foreign this is the whole message but for what [`Self::detail`] adds.
    pub open spec fn heading(self) -> Seq<char> {
        match self {
            ConfigErrorView::InvalidValue { field, .. } => "Invalid value for "@ + field + ": "@,
            ConfigErrorView::OutOfRange { field, .. } => "Value out of range for "@ + field
                + ": "@,
            ConfigErrorView::InvalidSchedule(_) => "Invalid schedule format: "@,
            ConfigErrorView::MissingRequiredField(_) => "Missing required field: "@,
            ConfigErrorView::NotInitialized => "Configuration not initialized. Call load_config_once() first"@,
            ConfigErrorView::LockPoisoned => "Configuration lock is poisoned"@,
            ConfigErrorView::IoError(_) => "IO error: "@,
            ConfigErrorView::SerializationError(_) => "Serialization error: "@,
            ConfigErrorView::ConfigAlreadySet => "Configuration has already been initialized"@,
        }
    }

    /// The message of an error that is not foreign.
    pub open spec fn message(self) -> Seq<char> {
        self.heading() + self.detail()
    }

    /// What follows the heading in the message of an error that is not
    /// foreign.
    pub open spec fn detail(self) -> Seq<char> {
        match self {
            ConfigErrorView::InvalidValue { value, .. } => value,
            ConfigErrorView::OutOfRange { value, .. } => decimal(value as nat),
            ConfigErrorView::InvalidSchedule(cron) => cron,
            ConfigErrorView::MissingRequiredField(field) => field,
            _ => Seq::<char>::empty(),
        }
    }
}

impl From<std::io::Error> for ConfigError {
    fn from(err: std::io::Error) -> (r: Self) {
        ConfigError::IoError(err)
    }
}

impl FromSpecImpl<std::io::Error> for ConfigError {
    open spec fn obeys_from_spec() -> bool {
        true
    }

    open spec fn from_spec(err: std::io::Error) -> Self {
        ConfigError::IoError(err)
    }
}

impl From<serde_yaml::Error> for ConfigError {
    fn from(err: serde_yaml::Error) -> (r: Self) {
        ConfigError::SerializationError(err)
    }
}

impl FromSpecImpl<serde_yaml::Error> for ConfigError {
    open spec fn obeys_from_spec() -> bool {
        true
    }

    open spec fn from_spec(err: serde_yaml::Error) -> Self {
        ConfigError::SerializationError(err)
    }
}

/// Whether `text` is what `to_string` gives for the file system's error
/// `err`, as far as the standard library's contract for `to_string` says.
pub open spec fn printed_by_io_error(err: std::io::Error, text: String) -> bool {
    vstd::string::to_string_from_display_ensures::<std::io::Error>(&err, text)
}

/// Whether `text` is what `to_string` gives for the parser's error `err`,
/// as far as the standard library's contract for `to_string` says.
pub open spec fn printed_by_yaml_error(err: serde_yaml::Error, text: String) -> bool {
    vstd::string::to_string_from_display_ensures::<serde_yaml::Error>(&err, text)
}

/// The path under which the part named `part` reports its own field `field`
/// at `place`.
pub fn field_path(place: Option<&str>, part: &str, field: &str) -> (r: String)
    ensures
        r@ == field_of(place_view(place), part@, field@),
{
    match place {
        Some(scope) => dotted_path(scope, field),
        None => dotted_path(part, field),
    }
}

impl ConfigError {
    /// The error of a part's part as the part that is checked at `place`
    /// reports it: as it is where the part is checked by itself, within the
    /// scope otherwise.
    pub fn placed(self, place: Option<&str>) -> (r: ConfigError)
        ensures
            Err::<(), ConfigErrorView>(r.deep_view()) == placed(
                Err(self.deep_view()),
                place_view(place),
            ),
    {
        match place {
            Some(scope) => self.within(scope),
            None => self,
        }
    }

    /// The error as the whole that holds the failing part under the name
    /// `scope` reports it: a field path gets `scope` and a dot in front.
    pub fn within(self, scope: &str) -> (r: ConfigError)
        ensures
            r.deep_view() == self.deep_view().within(scope@),
    {
        match self {
            ConfigError::InvalidValue { field, value } => ConfigError::InvalidValue {
                field: dotted_path(scope, field.as_str()),
                value,
            },
            ConfigError::OutOfRange { field, value } => ConfigError::OutOfRange {
                field: dotted_path(scope, field.as_str()),
                value,
            },
            ConfigError::MissingRequiredField(field) => ConfigError::MissingRequiredField(
                dotted_path(scope, field.as_str()),
            ),
            other => other,
        }
    }

    /// The message of the error, for a person to read. An error of the file
    /// system or of the parser is worded by the heading and, after it, by
    /// what the error prints of itself through `to_string`; what those
    /// words are is not known here.
    pub fn message(&self) -> (r: String)
        ensures
            !self.deep_view().is_foreign() ==> r@ == self.deep_view().message(),
            self.deep_view().is_foreign() ==> self.deep_view().heading().is_prefix_of(r@),
            self matches ConfigError::IoError(err) ==> exists|text: String|
                #[trigger] printed_by_io_error(*err, text) && r@ == self.deep_view().heading()
                    + text@,
            self matches ConfigError::SerializationError(err) ==> exists|text: String|
                #[trigger] printed_by_yaml_error(*err, text) && r@ == self.deep_view().heading()
                    + text@,
    {
        let ghost heading = self.deep_view().heading();
        match self {
            ConfigError::InvalidValue { field, value } => {
                let mut r = String::from_str("Invalid value for ");
                r.append(field.as_str());
                r.append(": ");
                r.append(value.as_str());
                r
            },
            ConfigError::OutOfRange { field, value } => {
                let number = decimal_string(*value as u64);
                let mut r = String::from_str("Value out of range for ");
                r.append(field.as_str());
                r.append(": ");
                r.append(number.as_str());
                r
            },
            ConfigError::InvalidSchedule(cron) => {
                let mut r = String::from_str("Invalid schedule format: ");
                r.append(cron.as_str());
                r
            },
            ConfigError::MissingRequiredField(field) => {
                let mut r = String::from_str("Missing required field: ");
                r.append(field.as_str());
                r
            },
            ConfigError::NotInitialized => {
                let r = String::from_str(
                    "Configuration not initialized. Call load_config_once() first",
                );
                assert(r@ =~= heading + Seq::<char>::empty());
                r
            },
            ConfigError::LockPoisoned => {
                let r = String::from_str("Configuration lock is poisoned");
                assert(r@ =~= heading + Seq::<char>::empty());
                r
            },
            ConfigError::IoError(err) => {
                let text = err.to_string();
                let mut r = String::from_str("IO error: ");
                r.append(text.as_str());
                assert(r@.subrange(0, heading.len() as int) =~= heading);
                assert(printed_by_io_error(*err, text) && r@ == heading + text@);
                r
            },
            ConfigError::SerializationError(err) => {
                let text = err.to_string();
                let mut r = String::from_str("Serialization error: ");
                r.append(text.as_str());
                assert(r@.subrange(0, heading.len() as int) =~= heading);
                assert(printed_by_yaml_error(*err, text) && r@ == heading + text@);
                r
            },
            ConfigError::ConfigAlreadySet => {
                let r = String::from_str("Configuration has already been initialized");
                assert(r@ =~= heading + Seq::<char>::empty());
                r
            },
        }
    }
}

} // verus!
