//! The settings of the client.

use crate::utils::path::{join, joined};
use vstd::prelude::*;

verus! {

/// The colour scheme of the client.
#[derive(Clone, Copy, Debug, PartialEq, Eq, Structural)]
pub enum Theme {
    /// Light text on dark ground; the default.
    Dark,
    /// Dark text on light ground.
    Light,
}

/// The language of the client's interface.
#[derive(Clone, Copy, Debug, PartialEq, Eq, Structural)]
pub enum Language {
    /// Chinese; the default.
    Chinese,
    /// English.
    English,
}

/// Why a settings operation failed.
#[derive(Clone, Copy, Debug, PartialEq, Eq, Structural)]
pub enum ConfigError {
    /// The settings have no file to be written to.
    NoConfigFilePath,
}

impl Default for Theme {
    fn default() -> (theme: Self)
        ensures
            theme == Theme::Dark,
    {
        Theme::Dark
    }
}

impl Default for Language {
    fn default() -> (language: Self)
        ensures
            language == Language::Chinese,
    {
        Language::Chinese
    }
}

/// What the user has chosen.
#[derive(Debug)]
pub struct GlobalSettings {
    /// The colour scheme.
    pub theme: Theme,
    /// The language of the interface.
    pub language: Language,
    /// The data directory of the application. It is found at startup and
    /// never read from or written to the settings file.
    pub data_directory: Option<String>,
    /// The identifier of the pack that was last enabled.
    pub enabled_bundle_id: Option<String>,
}

/// The settings together with the file they are kept in.
#[derive(Debug)]
pub struct ConfigState {
    /// What the user has chosen.
    pub global_settings: GlobalSettings,
    /// The path of the settings file.
    pub config_file_path: Option<String>,
}

/// The settings of a fresh installation.
pub open spec fn default_settings() -> GlobalSettings {
    GlobalSettings {
        theme: Theme::Dark,
        language: Language::Chinese,
        data_directory: None,
        enabled_bundle_id: None,
    }
}

impl Default for GlobalSettings {
    fn default() -> (settings: Self)
        ensures
            settings == default_settings(),
    {
        GlobalSettings {
            theme: Theme::Dark,
            language: Language::Chinese,
            data_directory: None,
            enabled_bundle_id: None,
        }
    }
}

impl Default for ConfigState {
    fn default() -> (state: Self)
        ensures
            state.global_settings == default_settings(),
            state.config_file_path is None,
    {
        ConfigState { global_settings: GlobalSettings::default(), config_file_path: None }
    }
}

impl ConfigState {
    /// The settings of a fresh installation, with no file yet.
    pub fn new() -> (state: Self)
        ensures
            state.global_settings == default_settings(),
            state.config_file_path is None,
    {
        ConfigState::default()
    }

    /// The settings file of the data directory `data_dir`.
    pub fn file_in(data_dir: &str) -> (path: String)
        ensures
            path@ == joined(data_dir@, "config.json"@),
    {
        join(data_dir, "config.json")
    }

    /// The file that the settings are to be written to.
    pub fn save_path(&self) -> (path: Result<&String, ConfigError>)
        ensures
            match path {
                Ok(p) => self.config_file_path == Some(*p),
                Err(e) => e == ConfigError::NoConfigFilePath && self.config_file_path is None,
            },
    {
        match &self.config_file_path {
            Some(path) => Ok(path),
            None => Err(ConfigError::NoConfigFilePath),
        }
    }

    /// Puts every choice back to its default. The data directory and the
    /// path of the settings file stay; no pack is remembered as enabled.
    /// The settings are then to be written: the answer is an error where
    /// they have no file.
    pub fn reset_to_default(&mut self) -> (reset: Result<(), ConfigError>)
        ensures
            final(self).global_settings.theme == Theme::Dark,
            final(self).global_settings.language == Language::Chinese,
            final(self).global_settings.data_directory == old(self).global_settings.data_directory,
            final(self).global_settings.enabled_bundle_id is None,
            final(self).config_file_path == old(self).config_file_path,
            reset is Ok <==> old(self).config_file_path is Some,
            reset is Err ==> reset == Err::<(), ConfigError>(ConfigError::NoConfigFilePath),
    {
        self.global_settings.theme = Theme::Dark;
        self.global_settings.language = Language::Chinese;
        self.global_settings.enabled_bundle_id = None;
        match &self.config_file_path {
            Some(_) => Ok(()),
            None => Err(ConfigError::NoConfigFilePath),
        }
    }

    /// Takes over the choices of `settings`. The data directory is not a
    /// choice: it stays as it is.
    pub fn update_config(&mut self, settings: GlobalSettings)
        ensures
            final(self).global_settings.theme == settings.theme,
            final(self).global_settings.language == settings.language,
            final(self).global_settings.enabled_bundle_id == settings.enabled_bundle_id,
            final(self).global_settings.data_directory == old(self).global_settings.data_directory,
            final(self).config_file_path == old(self).config_file_path,
    {
        self.global_settings.theme = settings.theme;
        self.global_settings.language = settings.language;
        self.global_settings.enabled_bundle_id = settings.enabled_bundle_id;
    }

    /// Chooses the colour scheme.
    pub fn set_theme(&mut self, theme: Theme)
        ensures
            final(self).global_settings.theme == theme,
            final(self).global_settings.language == old(self).global_settings.language,
            final(self).global_settings.data_directory == old(self).global_settings.data_directory,
            final(self).global_settings.enabled_bundle_id == old(
                self,
            ).global_settings.enabled_bundle_id,
            final(self).config_file_path == old(self).config_file_path,
    {
        self.global_settings.theme = theme;
    }

    /// Chooses the language of the interface.
    pub fn set_language(&mut self, language: Language)
        ensures
            final(self).global_settings.language == language,
            final(self).global_settings.theme == old(self).global_settings.theme,
            final(self).global_settings.data_directory == old(self).global_settings.data_directory,
            final(self).global_settings.enabled_bundle_id == old(
                self,
            ).global_settings.enabled_bundle_id,
            final(self).config_file_path == old(self).config_file_path,
    {
        self.global_settings.language = language;
    }

    /// Remembers which pack is enabled, or that none is.
    pub fn set_enabled_bundle_id(&mut self, bundle_id: Option<String>)
        ensures
            final(self).global_settings.enabled_bundle_id == bundle_id,
            final(self).global_settings.theme == old(self).global_settings.theme,
            final(self).global_settings.language == old(self).global_settings.language,
            final(self).global_settings.data_directory == old(self).global_settings.data_directory,
            final(self).config_file_path == old(self).config_file_path,
    {
        self.global_settings.enabled_bundle_id = bundle_id;
    }
}

} // verus!
