//! The daemon's configuration and where its parts come from.
//!
//! Reading the arguments, the environment and the file is the caller's
//! business. Which of them wins is decided here.

use crate::container::{Container, ContainerView};
use crate::engine::views;
use std::time::Duration;
use vstd::prelude::*;
use vstd::string::StringExecFns;

verus! {

/// Where the configuration file is looked for when nothing else is said.
pub const DEFAULT_CONFIG_PATH: &'static str = "./config.yml";

/// Where the records are kept when nothing else is said.
pub const DEFAULT_STATE_PATH: &'static str = "./state";

/// The ways of reaching the Docker daemon.
#[derive(Clone, Copy, Debug, PartialEq, Eq, Structural)]
pub enum DockerConnectMode {
    /// A Unix domain socket.
    UnixSocket,
    /// A Windows named pipe.
    WindowsPipe,
    /// Plain HTTP.
    Http,
    /// HTTP over TLS.
    SSL,
}

/// The kind of system that the daemon runs on.
#[derive(Clone, Copy, Debug, PartialEq, Eq, Structural)]
pub enum Platform {
    Unix,
    Windows,
}

/// Where a setting was found.
#[derive(Clone, Copy, Debug, PartialEq, Eq, Structural)]
pub enum Source {
    /// On the command line.
    Arguments,
    /// In the environment.
    Environment,
    /// Nowhere: the built-in default applies.
    Default,
}

/// Why no usable configuration came about.
#[derive(Clone, Copy, Debug, PartialEq, Eq, Structural)]
pub enum ConfigError {
    /// Neither the file nor the environment holds a Steam API key.
    MissingApiKey,
}

/// The daemon's configuration.
#[derive(Debug)]
pub struct Config {
    steam_api_key: String,
    check_interval: Duration,
    containers: Vec<Container>,
    state_directory: String,
    connect_mode: DockerConnectMode,
}

/// A [`Config`] as a plain value.
pub struct ConfigView {
    /// The credential for the version source.
    pub steam_api_key: Seq<char>,
    /// The time between two rounds of checks.
    pub check_interval: Duration,
    /// The containers to watch.
    pub containers: Seq<ContainerView>,
    /// The directory below which the records lie; empty while undecided.
    pub state_directory: Seq<char>,
    /// How the Docker daemon is reached.
    pub connect_mode: DockerConnectMode,
}

impl View for Config {
    type V = ConfigView;

    closed spec fn view(&self) -> ConfigView {
        ConfigView {
            steam_api_key: self.steam_api_key@,
            check_interval: self.check_interval,
            containers: views(self.containers@),
            state_directory: self.state_directory@,
            connect_mode: self.connect_mode,
        }
    }
}

/// The view of a text that may be absent.
pub open spec fn string_view(text: Option<String>) -> Option<Seq<char>> {
    match text {
        Some(t) => Some(t@),
        None => None,
    }
}

/// The path of the configuration file and where it was found: the command
/// line comes before the environment, and the default is last.
pub open spec fn located(argument: Option<Seq<char>>, variable: Option<Seq<char>>) -> (
    Seq<char>,
    Source,
) {
    match argument {
        Some(path) => (path, Source::Arguments),
        None => match variable {
            Some(path) => (path, Source::Environment),
            None => (DEFAULT_CONFIG_PATH@, Source::Default),
        },
    }
}

/// The API key in force: the environment's comes before the file's.
/// An empty key in the file counts as none.
pub open spec fn api_key_of(file: Seq<char>, variable: Option<Seq<char>>) -> Option<Seq<char>> {
    match variable {
        Some(key) => Some(key),
        None => if file.len() == 0 {
            None
        } else {
            Some(file)
        },
    }
}

/// The state directory in force: the file's comes before the environment's,
/// and the default is last. An empty directory in the file counts as none.
pub open spec fn state_directory_of(file: Seq<char>, variable: Option<Seq<char>>) -> Seq<char> {
    if file.len() != 0 {
        file
    } else {
        match variable {
            Some(path) => path,
            None => DEFAULT_STATE_PATH@,
        }
    }
}

/// The configuration in force when the file holds `file` and the
/// environment holds `api_key` and `state_path`.
pub open spec fn resolved(
    file: ConfigView,
    api_key: Option<Seq<char>>,
    state_path: Option<Seq<char>>,
) -> Result<ConfigView, ConfigError> {
    match api_key_of(file.steam_api_key, api_key) {
        None => Err(ConfigError::MissingApiKey),
        Some(key) => Ok(
            ConfigView {
                steam_api_key: key,
                state_directory: state_directory_of(file.state_directory, state_path),
                ..file
            },
        ),
    }
}

/// The view of the result of [`Config::get`].
pub open spec fn result_view(r: Result<Config, ConfigError>) -> Result<ConfigView, ConfigError> {
    match r {
        Ok(config) => Ok(config@),
        Err(e) => Err(e),
    }
}

impl DockerConnectMode {
    /// The mode that is used where the configuration names none: the
    /// platform's own local transport.
    pub fn default_on(platform: Platform) -> (mode: DockerConnectMode)
        ensures
            mode == (match platform {
                Platform::Unix => DockerConnectMode::UnixSocket,
                Platform::Windows => DockerConnectMode::WindowsPipe,
            }),
    {
        match platform {
            Platform::Unix => DockerConnectMode::UnixSocket,
            Platform::Windows => DockerConnectMode::WindowsPipe,
        }
    }

    /// Whether the mode can be used on `platform`: each local transport
    /// exists on its own platform only, the others everywhere.
    pub fn available_on(&self, platform: Platform) -> (available: bool)
        ensures
            available == !(*self == DockerConnectMode::WindowsPipe && platform == Platform::Unix
                || *self == DockerConnectMode::UnixSocket && platform == Platform::Windows),
    {
        match (*self, platform) {
            (DockerConnectMode::WindowsPipe, Platform::Unix) => false,
            (DockerConnectMode::UnixSocket, Platform::Windows) => false,
            _ => true,
        }
    }
}

impl ConfigError {
    /// The error in words.
    pub fn message(&self) -> (text: String)
        ensures
            text@ == "Steam API key not found in configuration file or environment"@,
    {
        match self {
            ConfigError::MissingApiKey => String::from_str(
                "Steam API key not found in configuration file or environment",
            ),
        }
    }
}

impl Config {
    /// A configuration with exactly these settings.
    pub fn new(
        steam_api_key: String,
        check_interval: Duration,
        containers: Vec<Container>,
        state_directory: String,
        connect_mode: DockerConnectMode,
    ) -> (config: Config)
        ensures
            config@ == (ConfigView {
                steam_api_key: steam_api_key@,
                check_interval,
                containers: views(containers@),
                state_directory: state_directory@,
                connect_mode,
            }),
    {
        Config { steam_api_key, check_interval, containers, state_directory, connect_mode }
    }

    /// Picks the path of the configuration file: see [`located`].
    /// `argument` is the first argument of the command line, `variable` the
    /// value of `UPDATER_CONFIG_PATH`.
    pub fn locate(argument: Option<String>, variable: Option<String>) -> (r: (String, Source))
        ensures
            r.0@ == located(string_view(argument), string_view(variable)).0,
            r.1 == located(string_view(argument), string_view(variable)).1,
    {
        match argument {
            Some(path) => (path, Source::Arguments),
            None => match variable {
                Some(path) => (path, Source::Environment),
                None => (String::from_str(DEFAULT_CONFIG_PATH), Source::Default),
            },
        }
    }

    /// Completes what the configuration file held with what the
    /// environment holds: see [`resolved`]. `api_key` is the value of
    /// `UPDATER_STEAM_API_KEY`, `state_path` that of `UPDATER_STATE_PATH`.
    pub fn get(file: Config, api_key: Option<String>, state_path: Option<String>) -> (r: Result<
        Config,
        ConfigError,
    >)
        ensures
            result_view(r) == resolved(file@, string_view(api_key), string_view(state_path)),
    {
        let Config { steam_api_key, check_interval, containers, state_directory, connect_mode } =
            file;
        let key = match api_key {
            Some(key) => key,
            None => {
                if steam_api_key.as_str().is_empty() {
                    return Err(ConfigError::MissingApiKey);
                }
                steam_api_key
            },
        };
        let directory = if !state_directory.as_str().is_empty() {
            state_directory
        } else {
            match state_path {
                Some(path) => path,
                None => String::from_str(DEFAULT_STATE_PATH),
            }
        };
        Ok(
            Config {
                steam_api_key: key,
                check_interval,
                containers,
                state_directory: directory,
                connect_mode,
            },
        )
    }

    /// Takes the configuration apart: the containers, the API key, the
    /// time between rounds, the state directory and the connect mode.
    pub fn consume(self) -> (parts: (Vec<Container>, String, Duration, String, DockerConnectMode))
        ensures
            views(parts.0@) == self@.containers,
            parts.1@ == self@.steam_api_key,
            parts.2 == self@.check_interval,
            parts.3@ == self@.state_directory,
            parts.4 == self@.connect_mode,
    {
        (
            self.containers,
            self.steam_api_key,
            self.check_interval,
            self.state_directory,
            self.connect_mode,
        )
    }
}

} // verus!
