use csv_light_editor::ai::analyzer::{AnalysisError, DataAnalyzer};
use csv_light_editor::ai::assistant::{AiAssistant, AiResponse, AssistantError, ChangePreview};
use csv_light_editor::ai::config::{switch_is_on, AiConfig, ConfigError};
use csv_light_editor::ai::intent::{
    generate_intent_description, AnalysisType, Intent, IntentSource, IntentType, TargetScope,
    TransformOperation,
};
use csv_light_editor::ai::llm_client::LlmProvider;
use csv_light_editor::ai::transformer::TransformError;
use csv_light_editor::ai_script::models::DataChange;

#[test]
fn test_default_config() {
    let config = AiConfig::default();
    assert!(config.enabled);
    assert_eq!(config.max_rows_per_operation, 10000);
    assert!(config.validate().is_ok());
}

#[test]
fn test_external_api_check() {
    let mut config = AiConfig::default();
    assert!(!config.has_external_api());

    config.api_key = Some("test-key".to_string());
    assert!(!config.has_external_api());

    config.api_endpoint = Some("https://api.example.com".to_string());
    assert!(config.has_external_api());
}

#[test]
fn the_default_configuration_is_exact() {
    let c = AiConfig::default();
    assert_eq!(c.max_context_size, 100000);
    assert!(!c.debug_mode);
    assert_eq!(c.operation_timeout_secs, 30);
    assert_eq!(c.api_key, None);
    assert_eq!(c.api_endpoint, None);
    assert_eq!(c.model_name, "local");
    assert!(!c.enable_advanced_analytics);
    assert!(c.enable_transformations);
    assert!(c.is_enabled());
    assert_eq!(c.get_api_key(), None);
    assert_eq!(c.get_api_endpoint(), None);
}

#[test]
fn limits_must_not_be_zero() {
    let mut config = AiConfig::default();
    config.max_rows_per_operation = 0;
    config.max_context_size = 0;
    config.operation_timeout_secs = 0;
    assert_eq!(config.validate(), Err(ConfigError::NoRows));
    assert_eq!(
        ConfigError::NoRows.message(),
        "max_rows_per_operation must be greater than 0"
    );
    config.max_rows_per_operation = 1000;
    assert_eq!(config.validate(), Err(ConfigError::NoContext));
    assert_eq!(ConfigError::NoContext.message(), "max_context_size must be greater than 0");
    config.max_context_size = 1;
    assert_eq!(config.validate(), Err(ConfigError::NoTimeout));
    assert_eq!(
        ConfigError::NoTimeout.message(),
        "operation_timeout_secs must be greater than 0"
    );
    config.operation_timeout_secs = 1;
    assert_eq!(config.validate(), Ok(()));
}

#[test]
fn variables_set_the_configuration() {
    let variables: Vec<(String, String)> = [
        ("AI_ENABLED", "TRUE"),
        ("AI_MAX_ROWS_PER_OPERATION", "50"),
        ("AI_MAX_ROWS_PER_OPERATION", "many"),
        ("AI_MAX_CONTEXT_SIZE", "+7"),
        ("AI_DEBUG_MODE", "1"),
        ("AI_OPERATION_TIMEOUT_SECS", "90"),
        ("AI_API_KEY", "k"),
        ("AI_API_KEY", ""),
        ("AI_API_ENDPOINT", "https://api.openai.com"),
        ("AI_MODEL_NAME", "gpt-4"),
        ("AI_MODEL_NAME", ""),
        ("AI_ENABLE_ADVANCED_ANALYTICS", "yes"),
        ("AI_ENABLE_TRANSFORMATIONS", "0"),
        ("HOME", "/root"),
    ]
    .iter()
    .map(|(k, v)| (k.to_string(), v.to_string()))
    .collect();
    let c = AiConfig::from_variables(&variables);
    assert_eq!(
        c,
        AiConfig {
            enabled: true,
            max_rows_per_operation: 50,
            max_context_size: 7,
            debug_mode: true,
            operation_timeout_secs: 90,
            api_key: Some("k".to_string()),
            api_endpoint: Some("https://api.openai.com".to_string()),
            model_name: "gpt-4".to_string(),
            enable_advanced_analytics: false,
            enable_transformations: false,
        }
    );
    assert_eq!(c.get_api_key(), Some("k"));
    assert_eq!(c.get_api_endpoint(), Some("https://api.openai.com"));
    assert_eq!(AiConfig::from_variables(&Vec::new()), AiConfig::default());
    assert!(!AiConfig::default().with_variable("AI_ENABLED", "on").enabled);
    assert!(switch_is_on("True") && switch_is_on("1") && !switch_is_on("01") && !switch_is_on(""));
}

fn config(key: Option<&str>, endpoint: Option<&str>, model: &str) -> AiConfig {
    let mut c = AiConfig::default();
    c.api_key = key.map(|s| s.to_string());
    c.api_endpoint = endpoint.map(|s| s.to_string());
    c.model_name = model.to_string();
    c
}

#[test]
fn the_service_follows_the_model_and_the_address() {
    let p = |c: &AiConfig| AiAssistant::choose_provider(c);
    assert_eq!(p(&config(None, Some("https://api.openai.com"), "gpt-4")), LlmProvider::Local);
    assert_eq!(p(&config(Some("k"), None, "gpt-4")), LlmProvider::OpenAI);
    assert_eq!(p(&config(Some("k"), None, "my-gpt")), LlmProvider::Local);
    assert_eq!(p(&config(Some("k"), Some("https://x.openai.azure.com"), "local")), LlmProvider::OpenAI);
    assert_eq!(p(&config(Some("k"), None, "gemini-pro")), LlmProvider::Gemini);
    assert_eq!(
        p(&config(Some("k"), Some("https://generativelanguage.googleapis.com"), "m")),
        LlmProvider::Gemini
    );
    assert_eq!(p(&config(Some("k"), Some("https://googleapis.com/openai"), "gemini")), LlmProvider::OpenAI);
    assert_eq!(p(&config(Some("k"), Some("https://example.com"), "llama")), LlmProvider::Local);
    let g = |c: &AiConfig| AiAssistant::choose_generator(c);
    assert_eq!(g(&config(Some("k"), Some("https://api.openai.com"), "local")), LlmProvider::Local);
    assert_eq!(g(&config(Some("k"), None, "gpt-4o")), LlmProvider::OpenAI);
    assert_eq!(g(&config(Some("k"), None, "gemini-1.5")), LlmProvider::Gemini);
    assert_eq!(g(&config(None, None, "gpt-4o")), LlmProvider::Local);
}

fn intent(intent_type: IntentType) -> Intent {
    Intent { intent_type, target_scope: TargetScope::AllData, source: IntentSource::Keywords }
}

#[test]
fn the_assistant_allows_what_is_open() {
    let basic = intent(IntentType::Analysis { analysis_type: AnalysisType::Summary });
    let advanced = intent(IntentType::Analysis { analysis_type: AnalysisType::Outliers });
    let trim = intent(IntentType::Transformation { operation: TransformOperation::Trim });
    let a = AiAssistant::with_config(AiConfig::default());
    assert!(a.is_enabled());
    assert_eq!(a.config(), &AiConfig::default());
    assert_eq!(a.allow(&basic), Ok(()));
    assert_eq!(a.allow(&advanced), Err(AssistantError::AdvancedAnalyticsDisabled));
    assert_eq!(a.allow(&trim), Ok(()));
    let mut c = AiConfig::default();
    c.enable_advanced_analytics = true;
    c.enable_transformations = false;
    let a = AiAssistant::with_config(c.clone());
    assert_eq!(a.allow(&advanced), Ok(()));
    assert_eq!(a.allow(&trim), Err(AssistantError::TransformationsDisabled));
    c.enabled = false;
    let a = AiAssistant::with_config(c);
    assert_eq!(a.allow(&basic), Err(AssistantError::Disabled));
    assert_eq!(AssistantError::Disabled.message(), "AI features are disabled");
    assert_eq!(
        AssistantError::AdvancedAnalyticsDisabled.message(),
        "Advanced analytics are disabled. Enable AI_ENABLE_ADVANCED_ANALYTICS in configuration."
    );
    assert_eq!(
        AssistantError::TransformationsDisabled.message(),
        "Data transformations are disabled. Enable AI_ENABLE_TRANSFORMATIONS in configuration."
    );
    assert_eq!(
        AssistantError::Transform(TransformError::NoColumnsFound).message(),
        "None of the specified columns were found"
    );
}

#[test]
fn transformations_are_carried_out_within_the_limit() {
    let mut c = AiConfig::default();
    c.max_rows_per_operation = 12;
    let a = AiAssistant::with_config(c);
    let headers = vec!["h".to_string()];
    let rows: Vec<Vec<String>> = (0..20).map(|i| vec![format!(" {} ", i)]).collect();
    let trim = intent(IntentType::Transformation { operation: TransformOperation::Trim });
    let proposal = match a.execute_intent(&trim, &headers, &rows).unwrap() {
        AiResponse::Transformation(p) => p,
        other => panic!("not a transformation: {:?}", other),
    };
    assert_eq!(proposal.changes.len(), 12);
    assert_eq!(proposal.preview.len(), 10);
    assert_eq!(
        proposal.preview[9],
        ChangePreview {
            row_index: 9,
            column_index: 0,
            old_value: " 9 ".to_string(),
            new_value: "9".to_string(),
        }
    );
    assert_eq!(a.row_limit(5), 5);
    assert_eq!(a.row_limit(50), 12);
    let few = vec![DataChange {
        row_index: 1,
        column_index: 2,
        old_value: "a".to_string(),
        new_value: "b".to_string(),
    }];
    assert_eq!(a.generate_preview(&few).len(), 1);
    let analysis = intent(IntentType::Analysis { analysis_type: AnalysisType::Summary });
    assert_eq!(a.execute_intent(&analysis, &headers, &rows), Err(AssistantError::AnalysisNotHere));
    let mut statistics = intent(IntentType::Analysis { analysis_type: AnalysisType::Statistics });
    assert_eq!(a.execute_intent(&statistics, &headers, &rows), Err(AssistantError::AnalysisNotHere));
    statistics.target_scope = TargetScope::Columns { names: vec!["x".to_string()] };
    assert_eq!(
        a.execute_intent(&statistics, &headers, &rows),
        Err(AssistantError::Transform(TransformError::NoColumnsFound))
    );
    let mut missing = trim.clone();
    missing.target_scope = TargetScope::Column { name: "x".to_string() };
    assert_eq!(
        a.execute_intent(&missing, &headers, &rows),
        Err(AssistantError::Transform(TransformError::ColumnNotFound { name: "x".to_string() }))
    );
}

#[test]
fn intents_are_described() {
    let d = |intent_type: IntentType, target_scope: TargetScope| {
        generate_intent_description(&Intent { intent_type, target_scope, source: IntentSource::Service })
    };
    assert_eq!(
        d(IntentType::Analysis { analysis_type: AnalysisType::Statistics }, TargetScope::AllData),
        "Calculate statistics (mean, median, std dev, etc.) for all data"
    );
    assert_eq!(
        d(
            IntentType::Analysis { analysis_type: AnalysisType::Outliers },
            TargetScope::Column { name: "price".to_string() }
        ),
        "Detect outliers using IQR method for column 'price'"
    );
    assert_eq!(
        d(
            IntentType::Analysis { analysis_type: AnalysisType::Duplicates },
            TargetScope::Columns { names: vec!["a".to_string(), "b".to_string()] }
        ),
        "Detect duplicate rows for columns: a, b"
    );
    assert_eq!(
        d(
            IntentType::Analysis { analysis_type: AnalysisType::Missing },
            TargetScope::Selection { rows: vec![1], columns: vec![2] }
        ),
        "Analyze missing values for selected data"
    );
    assert_eq!(
        d(
            IntentType::Transformation {
                operation: TransformOperation::FormatNumbers { decimal_places: 12 }
            },
            TargetScope::AllData
        ),
        "Format numbers to 12 decimal places in all data"
    );
    assert_eq!(
        d(
            IntentType::Transformation {
                operation: TransformOperation::Replace { from: "a".to_string(), to: "".to_string() }
            },
            TargetScope::Column { name: "c".to_string() }
        ),
        "Replace 'a' with '' in column 'c'"
    );
    assert_eq!(
        d(
            IntentType::Transformation {
                operation: TransformOperation::FillMissing { strategy: "mode".to_string() }
            },
            TargetScope::Columns { names: vec![] }
        ),
        "Fill missing values using mode strategy in columns: "
    );
    assert_eq!(
        d(
            IntentType::Transformation {
                operation: TransformOperation::FormatDates { target_format: "DD/MM/YYYY".to_string() }
            },
            TargetScope::Selection { rows: vec![], columns: vec![] }
        ),
        "Format dates to DD/MM/YYYY in selected data"
    );
    for (operation, words) in [
        (TransformOperation::Normalize, "Normalize values to 0-1 range"),
        (TransformOperation::RemoveDuplicates, "Remove duplicate rows"),
        (TransformOperation::Capitalize, "Capitalize each word"),
        (TransformOperation::Lowercase, "Convert to lowercase"),
        (TransformOperation::Uppercase, "Convert to uppercase"),
        (TransformOperation::Trim, "Remove leading/trailing whitespace"),
    ] {
        assert_eq!(
            d(IntentType::Transformation { operation }, TargetScope::AllData),
            format!("{} in all data", words)
        );
    }
    for (analysis_type, words) in [
        (AnalysisType::Distribution, "Analyze value distribution and frequency"),
        (AnalysisType::Correlation, "Compute correlations between numeric columns"),
        (AnalysisType::Summary, "Generate dataset summary"),
    ] {
        assert_eq!(
            d(IntentType::Analysis { analysis_type }, TargetScope::AllData),
            format!("{} for all data", words)
        );
    }
}

#[test]
fn duplicate_rows_are_reported() {
    let rows: Vec<Vec<String>> = ["a", "b", "a", "c", "b", "a"]
        .iter()
        .map(|v| vec![v.to_string(), "x".to_string()])
        .collect();
    let result = DataAnalyzer::new().detect_duplicates(&rows);
    assert_eq!(result.summary, "Found 3 duplicate row(s) out of 6 total rows.");
    assert_eq!(
        result.details.to_text().unwrap(),
        "{\"duplicates\":[{\"duplicate_of\":0,\"row\":2},{\"duplicate_of\":1,\"row\":4},{\"duplicate_of\":0,\"row\":5}],\"total_rows\":6,\"unique_rows\":3}"
    );
    assert!(result.visualizations.is_empty());

    let many: Vec<Vec<String>> = (0..150).map(|_| vec!["same".to_string()]).collect();
    let result = DataAnalyzer::new().detect_duplicates(&many);
    assert_eq!(result.summary, "Found 100 duplicate row(s) out of 150 total rows.");
    assert_eq!(result.details.get("duplicates").unwrap().as_array().unwrap().len(), 100);
    assert_eq!(result.details.unsigned_of("unique_rows"), Some(1));

    let mut c = AiConfig::default();
    c.enable_advanced_analytics = true;
    c.max_rows_per_operation = 3;
    let a = AiAssistant::with_config(c);
    let duplicates = intent(IntentType::Analysis { analysis_type: AnalysisType::Duplicates });
    match a.execute_intent(&duplicates, &vec!["h".to_string()], &rows).unwrap() {
        AiResponse::Analysis(r) => {
            assert_eq!(r.summary, "Found 1 duplicate row(s) out of 3 total rows.")
        },
        other => panic!("not an analysis: {:?}", other),
    }
    let analyzer = DataAnalyzer::new();
    assert_eq!(
        analyzer.analyze(&AnalysisType::Outliers, &["h".to_string()], &rows, &TargetScope::AllData),
        Err(AnalysisError::NotHere)
    );
    assert_eq!(
        analyzer.analyze(
            &AnalysisType::Missing,
            &["h".to_string()],
            &rows,
            &TargetScope::Column { name: "z".to_string() }
        ),
        Err(AnalysisError::Columns(TransformError::ColumnNotFound { name: "z".to_string() }))
    );
    assert_eq!(
        analyzer.get_target_column_indices(&["h".to_string()], &TargetScope::AllData),
        Ok(vec![0])
    );
}

#[test]
fn requests_are_read_where_the_assistant_is_in_use() {
    let a = AiAssistant::with_config(AiConfig::default());
    let intent = a.detect_intent("Show me statistics for the price column").unwrap();
    assert!(matches!(intent.intent_type, IntentType::Analysis { .. }));
    let intent = a.detect_intent("Convert all dates to YYYY-MM-DD format").unwrap();
    assert!(matches!(intent.intent_type, IntentType::Transformation { .. }));
    let err = a.detect_intent("hello").unwrap_err();
    assert_eq!(err.message(), "Could not understand the request. Please try rephrasing.");
    let mut off = AiConfig::default();
    off.enabled = false;
    assert_eq!(
        AiAssistant::with_config(off).detect_intent("show me statistics"),
        Err(AssistantError::Disabled)
    );
}

#[test]
fn test_config_validation() {
    let mut config = AiConfig::default();

    config.max_rows_per_operation = 0;
    assert!(config.validate().is_err());

    config.max_rows_per_operation = 1000;
    assert!(config.validate().is_ok());
}

#[test]
fn test_ai_assistant_creation() {
    // An assistant as it is made where no variable is set.
    let assistant = AiAssistant::with_config(AiConfig::from_variables(&vec![]));
    assert_eq!(assistant.config(), &AiConfig::default());
    assert!(assistant.is_enabled());
}

#[test]
fn test_detect_analysis_intent() {
    let assistant = AiAssistant::with_config(AiConfig::from_variables(&vec![]));
    let result = assistant.detect_intent("Show me statistics for the price column");
    assert!(result.is_ok());
    let intent = result.unwrap();
    assert!(matches!(intent.intent_type, IntentType::Analysis { .. }));
}

#[test]
fn test_detect_transformation_intent() {
    let assistant = AiAssistant::with_config(AiConfig::from_variables(&vec![]));
    let result = assistant.detect_intent("Convert all dates to YYYY-MM-DD format");
    assert!(result.is_ok());
    let intent = result.unwrap();
    assert!(matches!(intent.intent_type, IntentType::Transformation { .. }));
}
