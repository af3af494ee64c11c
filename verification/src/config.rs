//! The configuration of the service, resolved once at start-up from a
//! snapshot of the environment.

use crate::port::{decimal_value, parse_port, read_port, PortError};
use vstd::prelude::*;
use vstd::string::StringExecFns;

verus! {

/// The settings that the service runs with.
#[derive(Debug)]
pub struct AppConfig {
    pub host: String,
    pub port: u16,
    pub database_url: String,
    pub log_level: String,
}

impl Clone for AppConfig {
    fn clone(&self) -> (copy: Self)
        ensures
            copy == *self,
    {
        AppConfig {
            host: self.host.clone(),
            port: self.port,
            database_url: self.database_url.clone(),
            log_level: self.log_level.clone(),
        }
    }
}

/// The mathematical value of an `AppConfig`.
pub struct AppConfigView {
    pub host: Seq<char>,
    pub port: u16,
    pub database_url: Seq<char>,
    pub log_level: Seq<char>,
}

impl View for AppConfig {
    type V = AppConfigView;

    open spec fn view(&self) -> AppConfigView {
        AppConfigView {
            host: self.host@,
            port: self.port,
            database_url: self.database_url@,
            log_level: self.log_level@,
        }
    }
}

/// The values of the variables that the configuration is read from, `None`
/// for a variable that is not set.
#[derive(Debug)]
pub struct Environment {
    /// `HOST`
    pub host: Option<String>,
    /// `PORT`
    pub port: Option<String>,
    /// `DATABASE_URL`
    pub database_url: Option<String>,
    /// `RUST_LOG`
    pub rust_log: Option<String>,
}

/// The mathematical value of an `Environment`.
pub struct EnvironmentView {
    pub host: Option<Seq<char>>,
    pub port: Option<Seq<char>>,
    pub database_url: Option<Seq<char>>,
    pub rust_log: Option<Seq<char>>,
}

/// The text of a variable, or `default` where it is not set.
pub open spec fn value_or(variable: Option<Seq<char>>, default: Seq<char>) -> Seq<char> {
    match variable {
        Some(text) => text,
        None => default,
    }
}

/// The mathematical value of a variable.
pub open spec fn view_of(variable: Option<String>) -> Option<Seq<char>> {
    match variable {
        Some(text) => Some(text@),
        None => None,
    }
}

impl View for Environment {
    type V = EnvironmentView;

    open spec fn view(&self) -> EnvironmentView {
        EnvironmentView {
            host: view_of(self.host),
            port: view_of(self.port),
            database_url: view_of(self.database_url),
            rust_log: view_of(self.rust_log),
        }
    }
}

impl EnvironmentView {
    /// The configuration that the environment gives, or the message that
    /// says why it gives none.
    ///
    /// The port is looked at before the database URL, so a port that cannot
    /// be read is reported even where the database URL is missing too.
    pub open spec fn config(self) -> Result<AppConfigView, Seq<char>> {
        match read_port(value_or(self.port, "8080"@)) {
            Err(e) => Err("Invalid PORT: "@ + e.text()),
            Ok(port) => match self.database_url {
                None => Err("DATABASE_URL must be set"@),
                Some(database_url) => Ok(
                    AppConfigView {
                        host: value_or(self.host, "0.0.0.0"@),
                        port,
                        database_url,
                        log_level: value_or(self.rust_log, "info"@),
                    },
                ),
            },
        }
    }
}

/// The text of a variable, or `default` where it is not set.
fn or_default(variable: Option<String>, default: &str) -> (text: String)
    ensures
        text@ == value_or(view_of(variable), default@),
{
    match variable {
        Some(text) => text,
        None => String::from_str(default),
    }
}

impl AppConfig {
    /// Resolves the configuration from the environment.
    ///
    /// `HOST` defaults to `0.0.0.0`, `PORT` to `8080` and `RUST_LOG` to
    /// `info`. `PORT` must be a port number, and `DATABASE_URL` must be set.
    pub fn from_env(env: Environment) -> (r: Result<AppConfig, String>)
        ensures
            match r {
                Ok(config) => env@.config() == Ok::<AppConfigView, Seq<char>>(config@),
                Err(message) => env@.config() == Err::<AppConfigView, Seq<char>>(message@),
            },
    {
        let Environment { host, port, database_url, rust_log } = env;
        let host = or_default(host, "0.0.0.0");
        let port_text = or_default(port, "8080");
        let port = match parse_port(port_text.as_str()) {
            Ok(port) => port,
            Err(e) => {
                let diagnostic = e.message();
                return Err(String::from_str("Invalid PORT: ").concat(diagnostic.as_str()));
            },
        };
        let database_url = match database_url {
            Some(url) => url,
            None => {
                return Err(String::from_str("DATABASE_URL must be set"));
            },
        };
        let log_level = or_default(rust_log, "info");
        Ok(AppConfig { host, port, database_url, log_level })
    }
}

/// A configuration is there exactly when the port can be read and the
/// database URL is set.
pub proof fn lemma_config_is_there(env: EnvironmentView)
    ensures
        env.config() is Ok <==> read_port(value_or(env.port, "8080"@)) is Ok
            && env.database_url is Some,
{
}

/// Where `PORT` is not set, the service listens on port 8080.
pub proof fn lemma_default_port()
    ensures
        read_port("8080"@) == Ok::<u16, PortError>(8080),
{
    reveal_strlit("8080");
    reveal_with_fuel(decimal_value, 5);
    assert(decimal_value("8080"@) == 8080);
}

} // verus!
