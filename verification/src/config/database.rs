//! The database of a document.

use crate::config::connection_config::ConnectionConfig;
use crate::config::error::{
    ConfigError, ConfigErrorView, field_of, field_path, outcome, place_view, placed,
};
use crate::text::{blank, is_blank};
use vstd::prelude::*;
use vstd::string::StringExecFns;

verus! {

/// The kinds of database that a document can name.
#[derive(Debug, Clone, Copy, PartialEq, Eq)]
pub enum DatabaseType {
    Postgres,
    Mysql,
    Mssql,
    Oracle,
}

impl DeepView for DatabaseType {
    type V = DatabaseType;

    open spec fn deep_view(&self) -> DatabaseType {
        *self
    }
}

impl DatabaseType {
    /// Every kind that can be written down is supported, so this never fails.
    pub fn validate(&self) -> (r: Result<(), ConfigError>)
        ensures
            r is Ok,
    {
        Ok(())
    }
}

/// The credentials of a database. A text such as `${ERP_PASSWORD}` is kept as
/// written: whoever opens the connection resolves it.
#[derive(Debug, PartialEq)]
pub struct AuthConfig {
    pub username: Option<String>,
    pub password: Option<String>,
}

/// The model of [`AuthConfig`]: its texts as sequences of characters.
pub struct AuthConfigView {
    pub username: Option<Seq<char>>,
    pub password: Option<Seq<char>>,
}

impl DeepView for AuthConfig {
    type V = AuthConfigView;

    open spec fn deep_view(&self) -> AuthConfigView {
        AuthConfigView {
            username: self.username.deep_view(),
            password: self.password.deep_view(),
        }
    }
}

impl Clone for AuthConfig {
    fn clone(&self) -> (r: Self)
        ensures
            r.deep_view() == self.deep_view(),
    {
        AuthConfig { username: self.username.clone(), password: self.password.clone() }
    }
}

/// The one database that a document describes.
#[derive(Debug, PartialEq)]
pub struct DatabaseConfig {
    pub name: String,
    pub db_type: DatabaseType,
    pub connection_string: Option<String>,
    pub host: String,
    pub port: u32,
    pub database: String,
    pub schema: Option<String>,
    pub auth: AuthConfig,
    pub pool: ConnectionConfig,
}

/// The model of [`DatabaseConfig`]: its texts as sequences of characters.
pub struct DatabaseConfigView {
    pub name: Seq<char>,
    pub db_type: DatabaseType,
    pub connection_string: Option<Seq<char>>,
    pub host: Seq<char>,
    pub port: u32,
    pub database: Seq<char>,
    pub schema: Option<Seq<char>>,
    pub auth: AuthConfigView,
    pub pool: ConnectionConfig,
}

impl DeepView for DatabaseConfig {
    type V = DatabaseConfigView;

    open spec fn deep_view(&self) -> DatabaseConfigView {
        DatabaseConfigView {
            name: self.name@,
            db_type: self.db_type,
            connection_string: self.connection_string.deep_view(),
            host: self.host@,
            port: self.port,
            database: self.database@,
            schema: self.schema.deep_view(),
            auth: self.auth.deep_view(),
            pool: self.pool,
        }
    }
}

impl Clone for DatabaseConfig {
    fn clone(&self) -> (r: Self)
        ensures
            r.deep_view() == self.deep_view(),
    {
        DatabaseConfig {
            name: self.name.clone(),
            db_type: self.db_type,
            connection_string: self.connection_string.clone(),
            host: self.host.clone(),
            port: self.port,
            database: self.database.clone(),
            schema: self.schema.clone(),
            auth: self.auth.clone(),
            pool: self.pool,
        }
    }
}

impl DatabaseConfigView {
    /// The database `name` of the kind `db_type`, reached at `host` and
    /// `port`, with the pool that a database has when it names none.
    pub open spec fn new(
        name: Seq<char>,
        db_type: DatabaseType,
        host: Seq<char>,
        port: u32,
        database: Seq<char>,
        auth: AuthConfigView,
    ) -> DatabaseConfigView {
        DatabaseConfigView {
            name,
            db_type,
            connection_string: None,
            host,
            port,
            database,
            schema: None,
            auth,
            pool: ConnectionConfig::default_value(),
        }
    }

    /// The first rule that the database breaks, if any, as it is reported at
    /// `place`. In this order: a name, a host and a catalog that are not
    /// blank, a port from 1 to 65535, and the rules of the pool.
    pub open spec fn check_in(self, place: Option<Seq<char>>) -> Result<(), ConfigErrorView> {
        if blank(self.name) {
            Err(ConfigErrorView::MissingRequiredField(field_of(place, "database"@, "name"@)))
        } else if blank(self.host) {
            Err(ConfigErrorView::MissingRequiredField(field_of(place, "database"@, "host"@)))
        } else if blank(self.database) {
            Err(
                ConfigErrorView::MissingRequiredField(field_of(place, "database"@, "database"@)),
            )
        } else if self.port == 0 || self.port > 65535 {
            Err(
                ConfigErrorView::OutOfRange {
                    field: field_of(place, "database"@, "port"@),
                    value: self.port,
                },
            )
        } else {
            placed(self.pool.check(), place)
        }
    }

    /// The first rule that the database breaks, if any, as the database
    /// reports it by itself: its own fields under `database`, and what the
    /// pool breaks as the pool reports it.
    pub open spec fn check(self) -> Result<(), ConfigErrorView> {
        self.check_in(None)
    }

    /// The first rule that the database breaks, if any, as a whole reports
    /// it that holds the database under `scope`.
    pub open spec fn check_within(self, scope: Seq<char>) -> Result<(), ConfigErrorView> {
        self.check_in(Some(scope))
    }
}

impl DatabaseConfig {
    /// The database `name` of the kind `db_type`, reached at `host` and
    /// `port`; everything else is as in a document that leaves it out.
    pub fn new(
        name: String,
        db_type: DatabaseType,
        host: String,
        port: u32,
        database: String,
        auth: AuthConfig,
    ) -> (r: Self)
        ensures
            r.deep_view() == DatabaseConfigView::new(
                name@,
                db_type,
                host@,
                port,
                database@,
                auth.deep_view(),
            ),
    {
        DatabaseConfig {
            name,
            db_type,
            connection_string: None,
            host,
            port,
            database,
            schema: None,
            auth,
            pool: ConnectionConfig::default(),
        }
    }

    /// Checks the database by itself and reports the first rule that it
    /// breaks: `database.name`, `database.host`, `database.database`,
    /// `database.port`, or what the pool reports.
    pub fn validate(&self) -> (r: Result<(), ConfigError>)
        ensures
            outcome(r) == self.deep_view().check(),
    {
        self.validate_in(None)
    }

    /// Checks the database for a whole that holds it under `scope`, and
    /// reports the first rule that it breaks under that scope.
    pub fn validate_within(&self, scope: &str) -> (r: Result<(), ConfigError>)
        ensures
            outcome(r) == self.deep_view().check_within(scope@),
    {
        self.validate_in(Some(scope))
    }

    fn validate_in(&self, place: Option<&str>) -> (r: Result<(), ConfigError>)
        ensures
            outcome(r) == self.deep_view().check_in(place_view(place)),
    {
        if is_blank(self.name.as_str()) {
            return Err(ConfigError::MissingRequiredField(field_path(place, "database", "name")));
        }
        if is_blank(self.host.as_str()) {
            return Err(ConfigError::MissingRequiredField(field_path(place, "database", "host")));
        }
        if is_blank(self.database.as_str()) {
            return Err(
                ConfigError::MissingRequiredField(field_path(place, "database", "database")),
            );
        }
        if self.port == 0 || self.port > 65535 {
            return Err(
                ConfigError::OutOfRange {
                    field: field_path(place, "database", "port"),
                    value: self.port,
                },
            );
        }
        match self.pool.validate() {
            Ok(()) => Ok(()),
            Err(e) => Err(e.placed(place)),
        }
    }
}

} // verus!
