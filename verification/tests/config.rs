use invoice_pilot::config::{
    AppConfig, ConfigManager, ConflictResolution, Language, SaveOutcome, StoredConfig, Theme,
};
use invoice_pilot::error::{AppError, IoFailure};

fn manager() -> ConfigManager {
    ConfigManager::new("/config/InvoicePilot/config.json", StoredConfig::Absent).unwrap()
}

fn with(change: impl Fn(&mut AppConfig)) -> ConfigManager {
    let mut config = AppConfig::default();
    change(&mut config);
    let mut m = manager();
    m.update_config(config);
    m
}

fn broken(m: &ConfigManager) -> String {
    match m.validate_config() {
        Err(AppError::ValidationError(message)) => message,
        other => panic!("{:?}", other),
    }
}

#[test]
fn fresh_configuration() {
    let config = AppConfig::default();
    assert_eq!(config.default_scan_directory, None);
    assert!(config.amount_recognition.enable_chinese_digits);
    assert!(config.amount_recognition.enable_arabic_digits);
    assert!(config.amount_recognition.enable_currency_symbols);
    assert_eq!(config.amount_recognition.min_amount, 1);
    assert_eq!(config.amount_recognition.max_amount, 100_000_000);
    assert_eq!(config.file_filter.supported_extensions, vec!["pdf"]);
    assert_eq!(config.file_filter.max_file_size, 100 * 1024 * 1024);
    assert!(!config.file_filter.include_subdirectories);
    assert_eq!(config.file_filter.exclude_patterns, vec![".*", "~*", "*.tmp"]);
    assert_eq!(config.rename_strategy.filename_template, "{金额}元_发票.pdf");
    assert!(!config.rename_strategy.backup_before_rename);
    assert_eq!(config.rename_strategy.conflict_resolution, ConflictResolution::AddSuffix);
    assert!(config.rename_strategy.preserve_modification_time);
    assert_eq!(config.ui_config.theme, Theme::System);
    assert_eq!(config.ui_config.language, Language::Chinese);
    assert!(!config.ui_config.show_detailed_logs);
    assert!(config.ui_config.auto_refresh);
}

#[test]
fn fresh_configuration_is_valid() {
    assert!(manager().validate_config().is_ok());
}

#[test]
fn each_rule_is_reported() {
    assert_eq!(broken(&with(|c| c.amount_recognition.min_amount = -1)), "最小金额不能为负数");
    assert_eq!(broken(&with(|c| c.amount_recognition.max_amount = 1)), "最大金额必须大于最小金额");
    assert_eq!(broken(&with(|c| c.amount_recognition.max_amount = 0)), "最大金额必须大于最小金额");
    assert_eq!(broken(&with(|c| c.file_filter.max_file_size = 0)), "最大文件大小必须大于0");
    assert_eq!(
        broken(&with(|c| c.file_filter.supported_extensions.clear())),
        "必须指定至少一个支持的文件扩展名"
    );
    assert_eq!(broken(&with(|c| c.rename_strategy.filename_template.clear())), "文件名模板不能为空");
}

#[test]
fn first_broken_rule_is_reported() {
    let m = with(|c| {
        c.amount_recognition.min_amount = -5;
        c.amount_recognition.max_amount = -10;
        c.file_filter.max_file_size = 0;
    });
    assert_eq!(broken(&m), "最小金额不能为负数");
    let m = with(|c| {
        c.file_filter.max_file_size = 0;
        c.rename_strategy.filename_template.clear();
    });
    assert_eq!(broken(&m), "最大文件大小必须大于0");
}

#[test]
fn bounds_at_the_edge() {
    assert!(with(|c| c.amount_recognition.min_amount = 0).validate_config().is_ok());
    assert!(with(|c| {
        c.amount_recognition.min_amount = 5;
        c.amount_recognition.max_amount = 6;
    })
    .validate_config()
    .is_ok());
    assert!(with(|c| c.file_filter.max_file_size = 1).validate_config().is_ok());
}

#[test]
fn manager_takes_what_was_stored() {
    let mut stored = AppConfig::default();
    stored.ui_config.theme = Theme::Dark;
    stored.default_scan_directory = Some("/invoices".to_string());
    let m = ConfigManager::new("/c/config.json", StoredConfig::Parsed(stored)).unwrap();
    assert_eq!(m.get_config().ui_config.theme, Theme::Dark);
    assert_eq!(m.get_default_scan_directory(), Some("/invoices".to_string()));
    assert_eq!(m.config_path(), "/c/config.json");
}

#[test]
fn malformed_configuration_is_an_error() {
    let failed = ConfigManager::new("/c/config.json", StoredConfig::Malformed("expected value".to_string()));
    assert!(matches!(
        failed,
        Err(AppError::ValidationError(m)) if m == "配置文件格式错误: expected value"
    ));
    assert!(ConfigManager::load_config(StoredConfig::Malformed(String::new())).is_err());
    assert!(ConfigManager::load_config(StoredConfig::Absent).is_ok());
}

#[test]
fn saving_maps_each_failure() {
    let m = manager();
    assert!(m.save_config(&SaveOutcome::Saved).is_ok());
    assert!(matches!(
        m.save_config(&SaveOutcome::NotSerialized("key must be a string".to_string())),
        Err(AppError::ValidationError(msg)) if msg == "序列化配置失败: key must be a string"
    ));
    assert!(matches!(
        m.save_config(&SaveOutcome::NotStored(IoFailure::PermissionDenied, "denied".to_string())),
        Err(AppError::PermissionError(msg)) if msg == "权限不足: denied"
    ));
    assert!(matches!(
        m.save_config(&SaveOutcome::NotStored(IoFailure::Other, "full".to_string())),
        Err(AppError::IoError(msg)) if msg == "IO错误: full"
    ));
}

#[test]
fn configuration_is_replaced_and_reset() {
    let mut m = manager();
    let mut changed = AppConfig::default();
    changed.ui_config.language = Language::English;
    changed.file_filter.include_subdirectories = true;
    m.update_config(changed);
    assert_eq!(m.get_config().ui_config.language, Language::English);
    assert!(m.get_config().file_filter.include_subdirectories);
    m.reset_to_default();
    assert_eq!(m.get_config().ui_config.language, Language::Chinese);
    assert!(!m.get_config().file_filter.include_subdirectories);
    assert_eq!(m.config_path(), "/config/InvoicePilot/config.json");
}

#[test]
fn default_scan_directory_is_set_alone() {
    let mut m = with(|c| c.ui_config.theme = Theme::Light);
    assert_eq!(m.get_default_scan_directory(), None);
    m.set_default_scan_directory(Some("/in".to_string()));
    assert_eq!(m.get_default_scan_directory(), Some("/in".to_string()));
    assert_eq!(m.get_config().ui_config.theme, Theme::Light);
    m.set_default_scan_directory(None);
    assert_eq!(m.get_default_scan_directory(), None);
}
