use csv_light_editor::ai::intent::{
    detect_intent, detect_transform_operation, extract_decimal_places, extract_replace_params,
    extract_target_scope, AnalysisType, Intent, IntentError, IntentSource, IntentType, TargetScope,
    TransformOperation,
};

#[test]
fn test_detect_statistics_intent() {
    let intent = detect_intent("Show me statistics for the price column").unwrap();
    assert!(matches!(
        intent.intent_type,
        IntentType::Analysis { analysis_type: AnalysisType::Statistics }
    ));
}

#[test]
fn test_detect_date_format_intent() {
    let intent = detect_intent("Convert dates to YYYY-MM-DD format").unwrap();
    assert!(matches!(intent.intent_type, IntentType::Transformation { .. }));
}

#[test]
fn test_extract_column_from_quotes() {
    let scope = extract_target_scope("Analyze 'price' column", "analyze 'price' column");
    assert!(matches!(scope, TargetScope::Column { .. }));
}

#[test]
fn intents_are_exact() {
    assert_eq!(
        detect_intent("Show me STATISTICS for the price column"),
        Ok(Intent {
            intent_type: IntentType::Analysis { analysis_type: AnalysisType::Statistics },
            target_scope: TargetScope::Column { name: "price".to_string() },
            source: IntentSource::Keywords,
        })
    );
    assert_eq!(
        detect_intent("Convert \"Start\" and 'End' dates to dd/mm/yyyy"),
        Ok(Intent {
            intent_type: IntentType::Transformation {
                operation: TransformOperation::FormatDates {
                    target_format: "DD/MM/YYYY".to_string()
                },
            },
            target_scope: TargetScope::Columns {
                names: vec!["Start".to_string(), "End".to_string()]
            },
            source: IntentSource::Keywords,
        })
    );
    assert_eq!(
        detect_intent("Trim everything"),
        Ok(Intent {
            intent_type: IntentType::Transformation { operation: TransformOperation::Trim },
            target_scope: TargetScope::AllData,
            source: IntentSource::Keywords,
        })
    );
    let err = detect_intent("hello there").unwrap_err();
    assert_eq!(err, IntentError::NotUnderstood);
    assert_eq!(err.message(), "Could not understand the request. Please try rephrasing.");
}

#[test]
fn scopes() {
    assert_eq!(extract_target_scope("all of it", "all of it"), TargetScope::AllData);
    assert_eq!(
        extract_target_scope("In The Price", "in the price"),
        TargetScope::Column { name: "price".to_string() }
    );
    assert_eq!(
        extract_target_scope("column   a_1 and b", "column   a_1 and b"),
        TargetScope::Column { name: "a_1".to_string() }
    );
    assert_eq!(
        extract_target_scope("'a' \"b\" 'c'", ""),
        TargetScope::Columns { names: vec!["a".to_string(), "b".to_string(), "c".to_string()] }
    );
    assert_eq!(extract_target_scope("''", "''"), TargetScope::AllData);
}

#[test]
fn transformations_are_tried_in_order() {
    let op = |p: &str| detect_transform_operation(p, &p.to_lowercase());
    assert_eq!(
        op("standardize the date"),
        Some(TransformOperation::FormatDates { target_format: "YYYY-MM-DD".to_string() })
    );
    assert_eq!(
        op("format numbers to 3 decimal places"),
        Some(TransformOperation::FormatNumbers { decimal_places: 3 })
    );
    assert_eq!(
        op("Format the decimal numbers"),
        Some(TransformOperation::FormatNumbers { decimal_places: 2 })
    );
    assert_eq!(op("remove duplicate rows"), Some(TransformOperation::RemoveDuplicates));
    assert_eq!(
        op("fill missing values"),
        Some(TransformOperation::FillMissing { strategy: "mean".to_string() })
    );
    assert_eq!(
        op("Replace null with ZERO"),
        Some(TransformOperation::FillMissing { strategy: "zero".to_string() })
    );
    assert_eq!(op("capitalize names"), Some(TransformOperation::Capitalize));
    assert_eq!(op("make it lower case"), Some(TransformOperation::Lowercase));
    assert_eq!(op("UPPERCASE it"), Some(TransformOperation::Uppercase));
    assert_eq!(op("remove whitespace"), Some(TransformOperation::Trim));
    assert_eq!(
        op("replace 'a b' with \"c\""),
        Some(TransformOperation::Replace { from: "a b".to_string(), to: "c".to_string() })
    );
    assert_eq!(op("replace a with b"), None);
    assert_eq!(op("replace 'a' with 'b' and normalize"), Some(TransformOperation::Replace {
        from: "a".to_string(),
        to: "b".to_string()
    }));
    assert_eq!(op("replace a by b, then normalize"), Some(TransformOperation::Normalize));
    assert_eq!(op("standardize"), Some(TransformOperation::Normalize));
    assert_eq!(op("sort it"), None);
}

#[test]
fn parameters_are_read_from_the_request() {
    assert_eq!(extract_decimal_places("use 4 decimal places"), Some(4));
    assert_eq!(extract_decimal_places("10decimal 3 decimal"), Some(10));
    assert_eq!(extract_decimal_places("decimal"), None);
    assert_eq!(extract_decimal_places("99999999999999999999999 decimal"), None);
    assert_eq!(
        extract_replace_params("please replace 'x'  to  'y z'"),
        Some(("x".to_string(), "y z".to_string()))
    );
    assert_eq!(extract_replace_params("Replace 'x' with 'y'"), None);
    assert_eq!(extract_replace_params("replace 'x' into 'y'"), None);
}
