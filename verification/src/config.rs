//! Deployment environments and the settings of a deployment.

use crate::text::{lowercase, to_lowercase};
use vstd::prelude::*;
use vstd::std_specs::convert::TryFromSpecImpl;
use vstd::string::StringExecFns;

verus! {

/// The settings of a deployment.
pub struct Settings {
    pub database: DatabaseSettings,
    pub application: ApplicationSettings,
}

/// How to reach the database.
pub struct DatabaseSettings {
    pub username: String,
    pub password: String,
    pub database_name: String,
    pub host: String,
    pub port: u16,
    pub require_ssl: bool,
}

/// Where the application listens.
pub struct ApplicationSettings {
    pub host: String,
    pub port: u16,
}

/// How much a connection to the database insists on encryption.
#[derive(Debug, Clone, Copy, PartialEq, Eq)]
pub enum SslMode {
    /// Encrypt where the server offers it.
    Prefer,
    /// Refuse a connection that is not encrypted.
    Require,
}

/// What a connection to the database is opened with.
pub struct ConnectOptions {
    pub host: String,
    pub port: u16,
    pub username: String,
    pub password: String,
    pub database: String,
    pub ssl_mode: SslMode,
}

impl DatabaseSettings {
    /// The encryption that these settings ask for.
    pub open spec fn ssl_mode(self) -> SslMode {
        if self.require_ssl {
            SslMode::Require
        } else {
            SslMode::Prefer
        }
    }

    /// The options to connect with: the settings as they are, and
    /// encryption required exactly where `require_ssl` is set.
    pub fn connection_options(&self) -> (options: ConnectOptions)
        ensures
            options.host@ == self.host@,
            options.port == self.port,
            options.username@ == self.username@,
            options.password@ == self.password@,
            options.database@ == self.database_name@,
            options.ssl_mode == self.ssl_mode(),
    {
        let ssl_mode = if self.require_ssl {
            SslMode::Require
        } else {
            SslMode::Prefer
        };
        ConnectOptions {
            host: self.host.clone(),
            port: self.port,
            username: self.username.clone(),
            password: self.password.clone(),
            database: self.database_name.clone(),
            ssl_mode,
        }
    }
}

/// The environment a process is deployed in.
#[derive(Debug, Clone, Copy, PartialEq, Eq)]
pub enum Env {
    Local,
    Production,
}

/// The environment that goes by the lower-case name `lower`, if any.
pub open spec fn env_named(lower: Seq<char>) -> Option<Env> {
    if lower == "local"@ {
        Some(Env::Local)
    } else if lower == "production"@ {
        Some(Env::Production)
    } else {
        None
    }
}

/// The complaint about `lower`, a name that no environment goes by.
pub open spec fn unsupported_message(lower: Seq<char>) -> Seq<char> {
    "\""@ + lower + "\"is not a supported environment. Use \"local\" or \"production\"."@
}

/// Whether `res` is what reading an environment out of `value` gives.
pub open spec fn is_env_of(value: Seq<char>, res: Result<Env, String>) -> bool {
    match env_named(lowercase(value)) {
        Some(env) => res == Ok::<Env, String>(env),
        None => res is Err && res->Err_0@ == unsupported_message(lowercase(value)),
    }
}

impl Env {
    /// The lower-case name of the environment.
    pub open spec fn name(self) -> Seq<char> {
        match self {
            Env::Local => "local"@,
            Env::Production => "production"@,
        }
    }

    /// The name under which the environment's settings are filed.
    pub fn as_str(&self) -> (name: &str)
        ensures
            name@ == self.name(),
    {
        match self {
            Env::Local => "local",
            Env::Production => "production",
        }
    }
}

/// The conversion is specified by the contract of `try_from` itself: a
/// complaint is a fresh `String`, known by its text alone, so no spec
/// function can name the value that comes back.
impl TryFromSpecImpl<String> for Env {
    open spec fn obeys_try_from_spec() -> bool {
        false
    }

    open spec fn try_from_spec(value: String) -> Result<Self, String> {
        arbitrary()
    }
}

impl TryFrom<String> for Env {
    type Error = String;

    /// Reads an environment out of its name, in any case of letters; any
    /// other text is answered with a complaint that quotes it in lower case.
    fn try_from(value: String) -> (res: Result<Self, Self::Error>)
        ensures
            is_env_of(value@, res),
    {
        let lower = to_lowercase(value.as_str());
        if lower == "local".to_string() {
            Ok(Env::Local)
        } else if lower == "production".to_string() {
            Ok(Env::Production)
        } else {
            Err(
                "\"".to_string().concat(lower.as_str()).concat(
                    "\"is not a supported environment. Use \"local\" or \"production\".",
                ),
            )
        }
    }
}

/// The name of the file that holds the settings of `env`.
pub open spec fn settings_file_of(env: Env) -> Seq<char> {
    env.name() + ".yaml"@
}

/// The environment name that `app_env` gives: what it holds, or `local`
/// where it holds nothing.
pub open spec fn named_or_local(app_env: Option<String>) -> Seq<char> {
    match app_env {
        Some(name) => name@,
        None => "local"@,
    }
}

/// Picks the settings file for the environment that `app_env` names, or for
/// the local one where none is named. A name that no environment goes by is
/// answered with the complaint about it.
pub fn environment_file(app_env: Option<String>) -> (res: Result<String, String>)
    ensures
        match env_named(lowercase(named_or_local(app_env))) {
            Some(env) => res is Ok && res->Ok_0@ == settings_file_of(env),
            None => res is Err && res->Err_0@ == unsupported_message(
                lowercase(named_or_local(app_env)),
            ),
        },
{
    let name = match app_env {
        Some(name) => name,
        None => "local".to_string(),
    };
    match Env::try_from(name) {
        Ok(env) => Ok(env.as_str().to_string().concat(".yaml")),
        Err(complaint) => Err(complaint),
    }
}

} // verus!
