//! The server's configuration, and where it is looked for.

use crate::error::AppError;
use crate::text::{after_last, chars_of, find_after_last, text_of};
use vstd::prelude::*;
use vstd::string::StringExecFns;

verus! {

#[derive(Debug, Clone)]
pub struct AppConfig {
    pub server: ServerConfig,
    pub auth: AuthConfig,
}

#[derive(Debug, Clone)]
pub struct ServerConfig {
    pub port: u16,
    pub db_url: String,
    pub base_dir: String,
}

/// The keys that tokens are signed and checked with, in PEM.
#[derive(Debug, Clone)]
pub struct AuthConfig {
    pub sk: String,
    pub pk: String,
}

/// A place where the configuration may be.
#[derive(Debug, Clone, PartialEq)]
pub enum ConfigSource {
    /// `app.yml` in the working directory.
    Local,
    /// `/etc/config/app.yml`.
    System,
    /// The file that the environment variable `CHAT_CONFIG` names.
    Env(String),
}

/// The environment variable that may name the configuration file.
pub fn config_variable() -> (name: &'static str)
    ensures
        name@ == "CHAT_CONFIG"@,
{
    "CHAT_CONFIG"
}

impl ConfigSource {
    pub open spec fn spec_path(self) -> Seq<char> {
        match self {
            ConfigSource::Local => "app.yml"@,
            ConfigSource::System => "/etc/config/app.yml"@,
            ConfigSource::Env(path) => path@,
        }
    }

    /// The file to read.
    pub fn path(&self) -> (path: String)
        ensures
            path@ == self.spec_path(),
    {
        match self {
            ConfigSource::Local => String::from_str("app.yml"),
            ConfigSource::System => String::from_str("/etc/config/app.yml"),
            ConfigSource::Env(path) => path.clone(),
        }
    }
}

/// Picks the configuration file: the local one if it can be opened, else
/// the system's if that can be opened, else the one the environment names,
/// if it names one.
pub fn choose_source(local: bool, system: bool, env: Option<String>) -> (res: Result<
    ConfigSource,
    AppError,
>)
    ensures
        local ==> res matches Ok(ConfigSource::Local),
        !local && system ==> res matches Ok(ConfigSource::System),
        !local && !system ==> (match env {
            Some(path) => res matches Ok(ConfigSource::Env(p)) && p == path,
            None => res matches Err(e) && e is AnyError && e.detail()
                == "No configuration file found"@,
        }),
{
    if local {
        Ok(ConfigSource::Local)
    } else if system {
        Ok(ConfigSource::System)
    } else {
        match env {
            Some(path) => Ok(ConfigSource::Env(path)),
            None => Err(AppError::AnyError(String::from_str("No configuration file found"))),
        }
    }
}

impl ServerConfig {
    /// The URL of the database server without the database's name: the
    /// database URL up to its last `/`. `None` if it has no `/`.
    pub fn server_url(&self) -> (url: Option<String>)
        ensures
            match url {
                Some(u) => after_last(self.db_url@, '/', self.db_url@.len() as int) > 0 && u@
                    == self.db_url@.subrange(
                    0,
                    after_last(self.db_url@, '/', self.db_url@.len() as int) - 1,
                ),
                None => after_last(self.db_url@, '/', self.db_url@.len() as int) == 0,
            },
    {
        let chars = chars_of(self.db_url.as_str());
        let after: usize = find_after_last(&chars, '/');
        if after == 0 {
            None
        } else {
            Some(text_of(&chars, 0, after - 1))
        }
    }
}

} // verus!
