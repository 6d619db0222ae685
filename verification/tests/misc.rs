use csv_light_editor::ai::intent::{
    detect_analysis_type, extract_date_format, extract_fill_strategy, AnalysisType,
};
use csv_light_editor::settings::{ImportExportSettings, SettingsManager};
use csv_light_editor::utils::error::AppError;

#[test]
fn analysis_keywords_are_tried_in_order() {
    assert_eq!(
        detect_analysis_type("show me statistics for the price column"),
        Some(AnalysisType::Statistics)
    );
    assert_eq!(detect_analysis_type("histogram of the mean"), Some(AnalysisType::Statistics));
    assert_eq!(detect_analysis_type("price range"), Some(AnalysisType::Distribution));
    assert_eq!(detect_analysis_type("how do a and b relate"), Some(AnalysisType::Correlation));
    assert_eq!(detect_analysis_type("find anomalies"), Some(AnalysisType::Outliers));
    assert_eq!(detect_analysis_type("blank cells"), Some(AnalysisType::Missing));
    assert_eq!(detect_analysis_type("the same row twice"), Some(AnalysisType::Duplicates));
    assert_eq!(detect_analysis_type("the same thing"), None);
    assert_eq!(detect_analysis_type("show me the data"), Some(AnalysisType::Summary));
    assert_eq!(detect_analysis_type("show me"), None);
    assert_eq!(detect_analysis_type("Statistics"), None);
    assert_eq!(detect_analysis_type(""), None);
}

#[test]
fn date_formats_and_fill_strategies() {
    assert_eq!(extract_date_format("to yyyy-mm-dd please"), Some("YYYY-MM-DD".to_string()));
    assert_eq!(extract_date_format("as DD/MM/YYYY"), Some("DD/MM/YYYY".to_string()));
    assert_eq!(extract_date_format("as mm/dd/yyyy"), Some("MM/DD/YYYY".to_string()));
    assert_eq!(extract_date_format("ISO dates"), Some("YYYY-MM-DD".to_string()));
    assert_eq!(extract_date_format("dates"), None);
    assert_eq!(extract_fill_strategy("fill with the average"), Some("mean".to_string()));
    assert_eq!(extract_fill_strategy("use the median"), Some("median".to_string()));
    assert_eq!(extract_fill_strategy("mode"), Some("mode".to_string()));
    assert_eq!(extract_fill_strategy("zero"), Some("zero".to_string()));
    assert_eq!(extract_fill_strategy("forward"), Some("forward".to_string()));
    assert_eq!(extract_fill_strategy("fill it"), None);
}

#[test]
fn settings_are_held_and_reset() {
    let defaults = ImportExportSettings::default();
    assert_eq!(defaults.default_encoding, "UTF-8");
    assert_eq!(defaults.default_delimiter, ",");
    assert!(defaults.auto_detect_types);
    assert!(!defaults.trim_whitespace);
    assert_eq!(defaults.quote_character, "\"");
    assert_eq!(defaults.escape_character, "\\");
    assert_eq!(defaults.datetime_format, "%Y-%m-%d %H:%M:%S");
    assert_eq!(defaults.max_preview_rows, 100);
    assert_eq!(defaults.backup_directory, None);

    let mut manager = SettingsManager::with_settings(defaults.clone());
    assert_eq!(manager.get_settings(), &defaults);
    let mut changed = defaults.clone();
    changed.default_delimiter = ";".to_string();
    changed.max_preview_rows = 5;
    changed.backup_directory = Some("/tmp/b".to_string());
    manager.update_settings(changed.clone());
    assert_eq!(manager.get_settings(), &changed);
    manager.reset_to_defaults();
    assert_eq!(manager.get_settings(), &defaults);
}

#[test]
fn app_error_text() {
    let e = AppError::new("disk full".to_string(), "IO_ERROR".to_string());
    assert_eq!(e.message, "disk full");
    assert_eq!(e.code, "IO_ERROR");
    assert_eq!(e.to_text(), "[IO_ERROR] disk full");
}
