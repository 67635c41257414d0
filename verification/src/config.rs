//! Application settings and their defaults.

use crate::store::{loaded_or, StoreError, StoreRead};
use crate::text::{lowercase_of, str_eq, to_lowercase};
use vstd::prelude::*;

verus! {

/// The persisted settings.
#[derive(Clone, Debug)]
pub struct AppConfig {
    /// Root folder of the snippets; empty until the user picks one.
    pub prompts_folder: String,
    /// The system-wide hotkey, as the user wrote it.
    pub hotkey: String,
    /// Name of the colour theme.
    pub theme: String,
    /// Whether the application starts with the session.
    pub autostart: bool,
}

/// The settings, as the contracts see them.
pub struct AppConfigView {
    pub prompts_folder: Seq<char>,
    pub hotkey: Seq<char>,
    pub theme: Seq<char>,
    pub autostart: bool,
}

impl View for AppConfig {
    type V = AppConfigView;

    open spec fn view(&self) -> AppConfigView {
        AppConfigView {
            prompts_folder: self.prompts_folder@,
            hotkey: self.hotkey@,
            theme: self.theme@,
            autostart: self.autostart,
        }
    }
}

/// The settings of a fresh installation.
pub open spec fn default_config() -> AppConfigView {
    AppConfigView {
        prompts_folder: Seq::<char>::empty(),
        hotkey: "Alt+Space"@,
        theme: "dark"@,
        autostart: false,
    }
}

/// The theme of a settings file that names none.
pub fn default_theme() -> (theme: String)
    ensures
        theme@ == "dark"@,
{
    "dark".to_owned()
}

/// The hotkey of a settings file that names none.
pub fn default_hotkey() -> (hotkey: String)
    ensures
        hotkey@ == "Alt+Space"@,
{
    "Alt+Space".to_owned()
}

impl Default for AppConfig {
    fn default() -> (config: AppConfig)
        ensures
            config@ == default_config(),
    {
        AppConfig {
            prompts_folder: String::new(),
            hotkey: default_hotkey(),
            theme: default_theme(),
            autostart: false,
        }
    }
}

/// The settings to run with, given what reading the settings file came to:
/// a missing file gives the defaults, a useless one is an error.
pub fn get_config(read: StoreRead<AppConfig>) -> (r: Result<AppConfig, StoreError>)
    ensures
        match read {
            StoreRead::Missing => r is Ok && r->Ok_0@ == default_config(),
            StoreRead::Unreadable(why) => r == Err::<AppConfig, StoreError>(
                StoreError::ReadFailed(why),
            ),
            StoreRead::Malformed(why) => r == Err::<AppConfig, StoreError>(
                StoreError::ParseFailed(why),
            ),
            StoreRead::Loaded(config) => r == Ok::<AppConfig, StoreError>(config),
        },
{
    loaded_or(read, AppConfig::default())
}

/// A window theme that the platform knows.
#[derive(Clone, Copy, Debug, PartialEq, Eq, Structural)]
pub enum WindowTheme {
    Light,
    Dark,
}

/// The window theme that a lower-case theme name stands for.
pub open spec fn theme_named(name: Seq<char>) -> Option<WindowTheme> {
    if name == "light"@ {
        Some(WindowTheme::Light)
    } else if name == "dark"@ {
        Some(WindowTheme::Dark)
    } else {
        None
    }
}

/// The window theme that the lower-case theme name `name` stands for;
/// `None` (follow the system) for a name that is neither light nor dark.
pub fn theme_by_name(name: &str) -> (r: Option<WindowTheme>)
    ensures
        r == theme_named(name@),
{
    if str_eq(name, "light") {
        Some(WindowTheme::Light)
    } else if str_eq(name, "dark") {
        Some(WindowTheme::Dark)
    } else {
        None
    }
}

/// The window theme to switch to for a theme name, whatever its case: the
/// name is lower-cased and then read as `theme_by_name` reads it.
pub fn window_theme(theme: &str) -> (r: Option<WindowTheme>)
    ensures
        r == theme_named(lowercase_of(theme@)),
{
    let lower: String = to_lowercase(theme);
    theme_by_name(lower.as_str())
}

/// The window theme to start with: light where the settings say exactly
/// `light`, dark otherwise.
pub fn startup_theme(theme: &str) -> (r: WindowTheme)
    ensures
        r == if theme@ == "light"@ {
            WindowTheme::Light
        } else {
            WindowTheme::Dark
        },
{
    if str_eq(theme, "light") {
        WindowTheme::Light
    } else {
        WindowTheme::Dark
    }
}

/// The settings with the hotkey replaced.
pub fn with_hotkey(config: AppConfig, hotkey: String) -> (next: AppConfig)
    ensures
        next@ == (AppConfigView { hotkey: hotkey@, ..config@ }),
{
    AppConfig { hotkey, ..config }
}

/// The settings with the autostart flag replaced.
pub fn with_autostart(config: AppConfig, autostart: bool) -> (next: AppConfig)
    ensures
        next@ == (AppConfigView { autostart, ..config@ }),
{
    AppConfig { autostart, ..config }
}

} // verus!
