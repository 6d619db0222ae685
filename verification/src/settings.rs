//! The settings of import and export.
//!
//! The manager holds the settings in memory. Reading them from and writing
//! them to the settings file is the caller's work: it writes what
//! [`SettingsManager::get_settings`] returns after each change.

use vstd::prelude::*;
use vstd::string::*;

verus! {

/// How tables are read and written.
#[derive(Clone, Debug, PartialEq, Eq)]
pub struct ImportExportSettings {
    pub default_encoding: String,
    pub default_delimiter: String,
    pub auto_detect_types: bool,
    pub trim_whitespace: bool,
    pub skip_empty_rows: bool,
    pub quote_character: String,
    pub escape_character: String,
    pub date_format: String,
    pub datetime_format: String,
    pub decimal_separator: String,
    pub thousands_separator: String,
    pub null_value_representation: String,
    pub max_preview_rows: usize,
    pub create_backup_on_save: bool,
    pub backup_directory: Option<String>,
}

/// The mathematical value of [`ImportExportSettings`].
pub struct ImportExportSettingsView {
    pub default_encoding: Seq<char>,
    pub default_delimiter: Seq<char>,
    pub auto_detect_types: bool,
    pub trim_whitespace: bool,
    pub skip_empty_rows: bool,
    pub quote_character: Seq<char>,
    pub escape_character: Seq<char>,
    pub date_format: Seq<char>,
    pub datetime_format: Seq<char>,
    pub decimal_separator: Seq<char>,
    pub thousands_separator: Seq<char>,
    pub null_value_representation: Seq<char>,
    pub max_preview_rows: usize,
    pub create_backup_on_save: bool,
    pub backup_directory: Option<Seq<char>>,
}

impl DeepView for ImportExportSettings {
    type V = ImportExportSettingsView;

    open spec fn deep_view(&self) -> ImportExportSettingsView {
        ImportExportSettingsView {
            default_encoding: self.default_encoding@,
            default_delimiter: self.default_delimiter@,
            auto_detect_types: self.auto_detect_types,
            trim_whitespace: self.trim_whitespace,
            skip_empty_rows: self.skip_empty_rows,
            quote_character: self.quote_character@,
            escape_character: self.escape_character@,
            date_format: self.date_format@,
            datetime_format: self.datetime_format@,
            decimal_separator: self.decimal_separator@,
            thousands_separator: self.thousands_separator@,
            null_value_representation: self.null_value_representation@,
            max_preview_rows: self.max_preview_rows,
            create_backup_on_save: self.create_backup_on_save,
            backup_directory: self.backup_directory.deep_view(),
        }
    }
}

/// The settings of a fresh installation.
pub open spec fn default_settings() -> ImportExportSettingsView {
    ImportExportSettingsView {
        default_encoding: "UTF-8"@,
        default_delimiter: ","@,
        auto_detect_types: true,
        trim_whitespace: false,
        skip_empty_rows: false,
        quote_character: "\""@,
        escape_character: "\\"@,
        date_format: "%Y-%m-%d"@,
        datetime_format: "%Y-%m-%d %H:%M:%S"@,
        decimal_separator: "."@,
        thousands_separator: ","@,
        null_value_representation: ""@,
        max_preview_rows: 100,
        create_backup_on_save: false,
        backup_directory: None,
    }
}

impl Default for ImportExportSettings {
    fn default() -> (settings: ImportExportSettings)
        ensures
            settings.deep_view() == default_settings(),
    {
        ImportExportSettings {
            default_encoding: String::from_str("UTF-8"),
            default_delimiter: String::from_str(","),
            auto_detect_types: true,
            trim_whitespace: false,
            skip_empty_rows: false,
            quote_character: String::from_str("\""),
            escape_character: String::from_str("\\"),
            date_format: String::from_str("%Y-%m-%d"),
            datetime_format: String::from_str("%Y-%m-%d %H:%M:%S"),
            decimal_separator: String::from_str("."),
            thousands_separator: String::from_str(","),
            null_value_representation: String::from_str(""),
            max_preview_rows: 100,
            create_backup_on_save: false,
            backup_directory: None,
        }
    }
}

/// The holder of the settings in use.
pub struct SettingsManager {
    settings: ImportExportSettings,
}

impl SettingsManager {
    /// The settings in use.
    pub closed spec fn current(&self) -> ImportExportSettingsView {
        self.settings.deep_view()
    }

    /// A manager of the given settings.
    pub fn with_settings(settings: ImportExportSettings) -> (manager: SettingsManager)
        ensures
            manager.current() == settings.deep_view(),
    {
        SettingsManager { settings }
    }

    /// The settings in use.
    pub fn get_settings(&self) -> (settings: &ImportExportSettings)
        ensures
            settings.deep_view() == self.current(),
    {
        &self.settings
    }

    /// Puts `new_settings` in use.
    pub fn update_settings(&mut self, new_settings: ImportExportSettings)
        ensures
            final(self).current() == new_settings.deep_view(),
    {
        self.settings = new_settings;
    }

    /// Puts the settings of a fresh installation in use.
    pub fn reset_to_defaults(&mut self)
        ensures
            final(self).current() == default_settings(),
    {
        self.settings = ImportExportSettings::default();
    }
}

} // verus!
