use vstd::prelude::*;
use vstd::string::*;

verus! {

/// The settings read at startup.
pub struct Config {
    pub notifiers: Notifiers,
}

/// The notifiers section: each present block enables one channel.
pub struct Notifiers {
    pub desktop: Option<DesktopConfig>,
    pub pushbullet: Option<PushbulletConfig>,
    pub webhook: Option<WebhookConfig>,
}

/// The desktop block has no fields: its presence enables the channel.
pub struct DesktopConfig {}

/// Reserved for a push channel; no channel is built from it yet.
pub struct PushbulletConfig {
    pub api_key: String,
}

pub struct WebhookConfig {
    pub url: String,
    pub secret: String,
}

/// Why the settings could not be had.
pub enum ConfigError {
    /// No configuration file in the user's directory nor in the working directory.
    NotFound,
    /// The document has no notifiers section.
    MissingNotifiers,
}

/// Where the configuration file is read from.
#[derive(PartialEq, Eq, Structural, Clone, Copy, Debug)]
pub enum ConfigSource {
    /// The per-user configuration directory.
    UserDir,
    /// The current working directory.
    WorkingDir,
}

/// Picks the file to read: the user's directory wins over the working
/// directory; with neither present startup fails.
pub fn choose_config_source(in_user_dir: bool, in_working_dir: bool) -> (r: Result<
    ConfigSource,
    ConfigError,
>)
    ensures
        in_user_dir ==> r == Ok::<ConfigSource, ConfigError>(ConfigSource::UserDir),
        !in_user_dir && in_working_dir ==> r == Ok::<ConfigSource, ConfigError>(
            ConfigSource::WorkingDir,
        ),
        !in_user_dir && !in_working_dir ==> r == Err::<ConfigSource, ConfigError>(
            ConfigError::NotFound,
        ),
{
    if in_user_dir {
        Ok(ConfigSource::UserDir)
    } else if in_working_dir {
        Ok(ConfigSource::WorkingDir)
    } else {
        Err(ConfigError::NotFound)
    }
}

impl Config {
    /// Builds the settings from a parsed document's notifiers section, which
    /// must be present: a document without it is a configuration error.
    pub fn from_document(notifiers: Option<Notifiers>) -> (r: Result<Config, ConfigError>)
        ensures
            notifiers is None <==> r is Err,
            notifiers is None ==> r == Err::<Config, ConfigError>(ConfigError::MissingNotifiers),
            notifiers matches Some(n) ==> r == Ok::<Config, ConfigError>(Config { notifiers: n }),
    {
        match notifiers {
            Some(n) => Ok(Config { notifiers: n }),
            None => Err(ConfigError::MissingNotifiers),
        }
    }
}

impl ConfigError {
    /// The text shown to the user when startup fails.
    pub fn describe(&self) -> (r: String)
        ensures
            *self is NotFound ==> r@ == not_found_text(),
            *self is MissingNotifiers ==> r@ == missing_notifiers_text(),
    {
        match self {
            ConfigError::NotFound => String::from_str(
                "Configuration file 'config.toml' not found in home directory (~/.config/cli-notifier) or current directory.",
            ),
            ConfigError::MissingNotifiers => String::from_str(
                "Configuration file has no [notifiers] section.",
            ),
        }
    }
}

pub open spec fn not_found_text() -> Seq<char> {
    "Configuration file 'config.toml' not found in home directory (~/.config/cli-notifier) or current directory."@
}

pub open spec fn missing_notifiers_text() -> Seq<char> {
    "Configuration file has no [notifiers] section."@
}

} // verus!
