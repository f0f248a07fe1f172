//! The configuration of the application: its values, their defaults, and
//! the rules that a configuration must meet. Amounts are counted in
//! hundredths of the currency unit.

use vstd::prelude::*;
use crate::error::{io_error_of, kind_of, message_of, AppError, AppResult, ErrorKind, IoFailure};
use crate::text::{chars_of, optional_view, string_of, with_reason};

verus! {

/// Which amounts are looked for, and within which bounds.
#[derive(Debug, Clone)]
pub struct AmountRecognitionConfig {
    pub enable_chinese_digits: bool,
    pub enable_arabic_digits: bool,
    pub enable_currency_symbols: bool,
    /// The smallest amount to accept, in hundredths.
    pub min_amount: i64,
    /// The largest amount to accept, in hundredths.
    pub max_amount: i64,
}

/// Which files are looked at.
#[derive(Debug, Clone)]
pub struct FileFilterConfig {
    pub supported_extensions: Vec<String>,
    /// The largest file to look at, in bytes.
    pub max_file_size: u64,
    pub include_subdirectories: bool,
    pub exclude_patterns: Vec<String>,
}

/// What to do with a name that is taken.
#[derive(Debug, Clone, Copy, PartialEq, Eq, Structural)]
pub enum ConflictResolution {
    AddSuffix,
    Skip,
    Overwrite,
    Ask,
}

/// How files are renamed.
#[derive(Debug, Clone)]
pub struct RenameStrategyConfig {
    pub filename_template: String,
    pub backup_before_rename: bool,
    pub conflict_resolution: ConflictResolution,
    pub preserve_modification_time: bool,
}

/// The colours of the interface.
#[derive(Debug, Clone, Copy, PartialEq, Eq, Structural)]
pub enum Theme {
    Light,
    Dark,
    System,
}

/// The language of the interface.
#[derive(Debug, Clone, Copy, PartialEq, Eq, Structural)]
pub enum Language {
    Chinese,
    English,
}

/// How the interface behaves.
#[derive(Debug, Clone)]
pub struct UiConfig {
    pub theme: Theme,
    pub language: Language,
    pub show_detailed_logs: bool,
    pub auto_refresh: bool,
}

/// The configuration of the application.
#[derive(Debug, Clone)]
pub struct AppConfig {
    pub default_scan_directory: Option<String>,
    pub amount_recognition: AmountRecognitionConfig,
    pub file_filter: FileFilterConfig,
    pub rename_strategy: RenameStrategyConfig,
    pub ui_config: UiConfig,
}

/// The template of a file name in a fresh configuration.
pub const DEFAULT_TEMPLATE: &'static str = "{金额}元_发票.pdf";

/// The largest file that a fresh configuration looks at: 100 MiB.
pub const DEFAULT_MAX_FILE_SIZE: u64 = 104_857_600;

/// The largest amount that a fresh configuration accepts: a million
/// units.
pub const DEFAULT_MAX_AMOUNT: i64 = 100_000_000;

/// The rule that a configuration breaks, if any, in the order in which
/// the rules are checked.
pub open spec fn broken_rule(config: AppConfig) -> Option<Seq<char>> {
    if config.amount_recognition.min_amount < 0 {
        Some("最小金额不能为负数"@)
    } else if config.amount_recognition.max_amount <= config.amount_recognition.min_amount {
        Some("最大金额必须大于最小金额"@)
    } else if config.file_filter.max_file_size == 0 {
        Some("最大文件大小必须大于0"@)
    } else if config.file_filter.supported_extensions@.len() == 0 {
        Some("必须指定至少一个支持的文件扩展名"@)
    } else if config.rename_strategy.filename_template@.len() == 0 {
        Some("文件名模板不能为空"@)
    } else {
        None
    }
}

/// A fresh configuration of amount recognition.
pub open spec fn is_default_amount_recognition(c: AmountRecognitionConfig) -> bool {
    &&& c.enable_chinese_digits
    &&& c.enable_arabic_digits
    &&& c.enable_currency_symbols
    &&& c.min_amount == 1
    &&& c.max_amount == DEFAULT_MAX_AMOUNT
}

/// A fresh configuration of the file filter.
pub open spec fn is_default_file_filter(c: FileFilterConfig) -> bool {
    &&& c.supported_extensions@.len() == 1
    &&& c.supported_extensions@[0]@ == "pdf"@
    &&& c.max_file_size == DEFAULT_MAX_FILE_SIZE
    &&& !c.include_subdirectories
    &&& c.exclude_patterns@.len() == 3
    &&& c.exclude_patterns@[0]@ == ".*"@
    &&& c.exclude_patterns@[1]@ == "~*"@
    &&& c.exclude_patterns@[2]@ == "*.tmp"@
}

/// A fresh configuration of the rename strategy.
pub open spec fn is_default_rename_strategy(c: RenameStrategyConfig) -> bool {
    &&& c.filename_template@ == DEFAULT_TEMPLATE@
    &&& !c.backup_before_rename
    &&& c.conflict_resolution == ConflictResolution::AddSuffix
    &&& c.preserve_modification_time
}

/// A fresh configuration of the interface.
pub open spec fn is_default_ui(c: UiConfig) -> bool {
    &&& c.theme == Theme::System
    &&& c.language == Language::Chinese
    &&& !c.show_detailed_logs
    &&& c.auto_refresh
}

/// A fresh configuration.
pub open spec fn is_default_config(c: AppConfig) -> bool {
    &&& c.default_scan_directory is None
    &&& is_default_amount_recognition(c.amount_recognition)
    &&& is_default_file_filter(c.file_filter)
    &&& is_default_rename_strategy(c.rename_strategy)
    &&& is_default_ui(c.ui_config)
}

/// A fresh configuration breaks no rule.
pub proof fn lemma_default_config_is_valid(c: AppConfig)
    requires
        is_default_config(c),
    ensures
        broken_rule(c) is None,
{
    reveal_strlit("{金额}元_发票.pdf");
}

impl Default for AmountRecognitionConfig {
    fn default() -> (c: AmountRecognitionConfig)
        ensures
            is_default_amount_recognition(c),
    {
        AmountRecognitionConfig {
            enable_chinese_digits: true,
            enable_arabic_digits: true,
            enable_currency_symbols: true,
            min_amount: 1,
            max_amount: DEFAULT_MAX_AMOUNT,
        }
    }
}

impl Default for FileFilterConfig {
    fn default() -> (c: FileFilterConfig)
        ensures
            is_default_file_filter(c),
    {
        let mut supported_extensions: Vec<String> = Vec::new();
        supported_extensions.push(string_of(&chars_of("pdf")));
        let mut exclude_patterns: Vec<String> = Vec::new();
        exclude_patterns.push(string_of(&chars_of(".*")));
        exclude_patterns.push(string_of(&chars_of("~*")));
        exclude_patterns.push(string_of(&chars_of("*.tmp")));
        FileFilterConfig {
            supported_extensions,
            max_file_size: DEFAULT_MAX_FILE_SIZE,
            include_subdirectories: false,
            exclude_patterns,
        }
    }
}

impl Default for RenameStrategyConfig {
    fn default() -> (c: RenameStrategyConfig)
        ensures
            is_default_rename_strategy(c),
    {
        RenameStrategyConfig {
            filename_template: string_of(&chars_of(DEFAULT_TEMPLATE)),
            backup_before_rename: false,
            conflict_resolution: ConflictResolution::AddSuffix,
            preserve_modification_time: true,
        }
    }
}

impl Default for UiConfig {
    fn default() -> (c: UiConfig)
        ensures
            is_default_ui(c),
    {
        UiConfig {
            theme: Theme::System,
            language: Language::Chinese,
            show_detailed_logs: false,
            auto_refresh: true,
        }
    }
}

impl Default for AppConfig {
    fn default() -> (c: AppConfig)
        ensures
            is_default_config(c),
    {
        AppConfig {
            default_scan_directory: None,
            amount_recognition: AmountRecognitionConfig::default(),
            file_filter: FileFilterConfig::default(),
            rename_strategy: RenameStrategyConfig::default(),
            ui_config: UiConfig::default(),
        }
    }
}

/// What was found where the configuration is kept.
#[derive(Debug)]
pub enum StoredConfig {
    /// Nothing is kept there yet.
    Absent,
    /// What is kept there is no configuration; with what the reader said of
    /// it.
    Malformed(String),
    /// The configuration that is kept there.
    Parsed(AppConfig),
}

/// How an attempt to keep the configuration went.
#[derive(Debug)]
pub enum SaveOutcome {
    /// It is kept.
    Saved,
    /// It could not be written down; with what the writer said of it.
    NotSerialized(String),
    /// It could not be stored; with the kind of the failure and what the
    /// failure said of itself.
    NotStored(IoFailure, String),
}

/// What precedes the reason where what is kept is no configuration.
pub const MALFORMED_CONFIG: &'static str = "配置文件格式错误: ";

/// What precedes the reason where the configuration could not be written
/// down.
pub const NOT_SERIALIZED: &'static str = "序列化配置失败: ";

/// Holds the configuration and the path where it is kept.
pub struct ConfigManager {
    config: AppConfig,
    config_path: String,
}

impl ConfigManager {
    /// The configuration that is held.
    pub closed spec fn config(&self) -> AppConfig {
        self.config
    }

    /// The path where the configuration is kept.
    pub closed spec fn path(&self) -> Seq<char> {
        self.config_path@
    }

    /// A manager for the configuration kept at `config_path`, from what
    /// was found there: the configuration found, a fresh one where nothing
    /// was found, or a validation error where what was found is no
    /// configuration.
    pub fn new(config_path: &str, stored: StoredConfig) -> (manager: AppResult<ConfigManager>)
        ensures
            match stored {
                StoredConfig::Absent => manager matches Ok(m) && is_default_config(m.config())
                    && m.path() == config_path@,
                StoredConfig::Parsed(found) => manager matches Ok(m) && m.config() == found
                    && m.path() == config_path@,
                StoredConfig::Malformed(reason) => manager matches Err(error) && kind_of(error)
                    == ErrorKind::Validation && message_of(error) == MALFORMED_CONFIG@ + reason@,
            },
    {
        match ConfigManager::load_config(stored) {
            Ok(config) => Ok(
                ConfigManager { config, config_path: string_of(&chars_of(config_path)) },
            ),
            Err(error) => Err(error),
        }
    }

    /// The configuration to work with, from what was found where it is
    /// kept.
    pub fn load_config(stored: StoredConfig) -> (config: AppResult<AppConfig>)
        ensures
            match stored {
                StoredConfig::Absent => config matches Ok(c) && is_default_config(c),
                StoredConfig::Parsed(found) => config == Ok::<AppConfig, AppError>(found),
                StoredConfig::Malformed(reason) => config matches Err(error) && kind_of(error)
                    == ErrorKind::Validation && message_of(error) == MALFORMED_CONFIG@ + reason@,
            },
    {
        match stored {
            StoredConfig::Absent => Ok(AppConfig::default()),
            StoredConfig::Parsed(found) => Ok(found),
            StoredConfig::Malformed(reason) => Err(
                AppError::ValidationError(with_reason(MALFORMED_CONFIG, reason.as_str())),
            ),
        }
    }

    /// The result of keeping the configuration, from how the attempt went.
    pub fn save_config(&self, outcome: &SaveOutcome) -> (saved: AppResult<()>)
        ensures
            match *outcome {
                SaveOutcome::Saved => saved is Ok,
                SaveOutcome::NotSerialized(reason) => saved matches Err(error) && kind_of(error)
                    == ErrorKind::Validation && message_of(error) == NOT_SERIALIZED@ + reason@,
                SaveOutcome::NotStored(failure, detail) => saved matches Err(error) && (
                    kind_of(error),
                    message_of(error),
                ) == io_error_of(failure, detail@),
            },
    {
        match outcome {
            SaveOutcome::Saved => Ok(()),
            SaveOutcome::NotSerialized(reason) => Err(
                AppError::ValidationError(with_reason(NOT_SERIALIZED, reason.as_str())),
            ),
            SaveOutcome::NotStored(failure, detail) => Err(
                AppError::from_io(*failure, detail.as_str()),
            ),
        }
    }

    /// The configuration that is held.
    pub fn get_config(&self) -> (config: &AppConfig)
        ensures
            *config == self.config(),
    {
        &self.config
    }

    /// The path where the configuration is kept.
    pub fn config_path(&self) -> (path: &str)
        ensures
            path@ == self.path(),
    {
        self.config_path.as_str()
    }

    /// Replaces the configuration that is held.
    pub fn update_config(&mut self, new_config: AppConfig)
        ensures
            final(self).config() == new_config,
            final(self).path() == old(self).path(),
    {
        self.config = new_config;
    }

    /// Replaces the configuration that is held by a fresh one.
    pub fn reset_to_default(&mut self)
        ensures
            is_default_config(final(self).config()),
            final(self).path() == old(self).path(),
    {
        self.config = AppConfig::default();
    }

    /// Checks the configuration that is held against the rules: amounts
    /// from zero up, a largest amount above the smallest, a largest file
    /// size above zero, at least one extension, a template that is not
    /// empty. The first rule that is broken is reported.
    pub fn validate_config(&self) -> (checked: AppResult<()>)
        ensures
            match checked {
                Ok(_) => broken_rule(self.config()) is None,
                Err(error) => kind_of(error) == ErrorKind::Validation && broken_rule(self.config())
                    == Some(message_of(error)),
            },
    {
        let config = &self.config;
        if config.amount_recognition.min_amount < 0 {
            return Err(AppError::validation_error("最小金额不能为负数"));
        }
        if config.amount_recognition.max_amount <= config.amount_recognition.min_amount {
            return Err(AppError::validation_error("最大金额必须大于最小金额"));
        }
        if config.file_filter.max_file_size == 0 {
            return Err(AppError::validation_error("最大文件大小必须大于0"));
        }
        if config.file_filter.supported_extensions.len() == 0 {
            return Err(
                AppError::validation_error("必须指定至少一个支持的文件扩展名"),
            );
        }
        if config.rename_strategy.filename_template.as_str().is_empty() {
            return Err(AppError::validation_error("文件名模板不能为空"));
        }
        Ok(())
    }

    /// The directory to scan where none is chosen.
    pub fn get_default_scan_directory(&self) -> (directory: Option<String>)
        ensures
            optional_view(directory) == optional_view(self.config().default_scan_directory),
    {
        match &self.config.default_scan_directory {
            Some(directory) => Some(directory.clone()),
            None => None,
        }
    }

    /// Sets the directory to scan where none is chosen; the rest of the
    /// configuration stays.
    pub fn set_default_scan_directory(&mut self, directory: Option<String>)
        ensures
            final(self).config().default_scan_directory == directory,
            final(self).config().amount_recognition == old(self).config().amount_recognition,
            final(self).config().file_filter == old(self).config().file_filter,
            final(self).config().rename_strategy == old(self).config().rename_strategy,
            final(self).config().ui_config == old(self).config().ui_config,
            final(self).path() == old(self).path(),
    {
        self.config.default_scan_directory = directory;
    }
}

} // verus!
