//! The settings record that the supervisor and the update checks read.

use vstd::prelude::*;

verus! {

/// The port that the dashboard listens on unless the user chose another.
pub const DEFAULT_PORT: u16 = 6052;

/// What the user chose, and what was found installed.
#[derive(Clone, Debug, PartialEq, Eq)]
pub struct Settings {
    /// Port of the dashboard.
    pub port: u16,
    /// Directory of the device configurations; `None` stands for the default.
    pub config_dir: Option<String>,
    /// Whether the dashboard is opened in the browser when the application starts.
    pub open_on_start: bool,
    /// Whether updates are looked for in the background.
    pub check_updates: bool,
    /// The version found installed; never stored.
    pub installed_version: Option<String>,
}

/// The port of a settings record that names none.
pub fn default_port() -> (port: u16)
    ensures
        port == DEFAULT_PORT,
{
    DEFAULT_PORT
}

/// The value of a switch that a settings record does not name.
pub fn default_true() -> (on: bool)
    ensures
        on,
{
    true
}

/// The settings of a user who chose nothing.
pub open spec fn default_settings() -> Settings {
    Settings {
        port: DEFAULT_PORT,
        config_dir: None,
        open_on_start: true,
        check_updates: true,
        installed_version: None,
    }
}

impl Default for Settings {
    fn default() -> (settings: Settings)
        ensures
            settings == default_settings(),
    {
        Settings {
            port: default_port(),
            config_dir: None,
            open_on_start: default_true(),
            check_updates: default_true(),
            installed_version: None,
        }
    }
}

impl Settings {
    /// The settings to work with: what was stored, or the defaults where
    /// nothing was, each with the version that was found installed in place of
    /// whatever the record held.
    pub fn load(stored: Option<Settings>, installed_version: Option<String>) -> (settings:
        Settings)
        ensures
            settings == (Settings {
                installed_version,
                ..match stored {
                    Some(s) => s,
                    None => default_settings(),
                }
            }),
    {
        let mut settings = match stored {
            Some(s) => s,
            None => Settings::default(),
        };
        settings.installed_version = installed_version;
        settings
    }
}

} // verus!
