use csv_light_editor::csv_engine::data_types::{
    name_of_type, ColumnTypeInfo, DataType, DataTypeDetector,
};
use csv_light_editor::text::{str_is_float, str_is_i64};

#[test]
fn test_detect_integer() {
    let detector = DataTypeDetector::new();
    assert_eq!(detector.detect_value_type("123"), DataType::Integer);
    assert_eq!(detector.detect_value_type("-456"), DataType::Integer);
}

#[test]
fn test_detect_float() {
    let detector = DataTypeDetector::new();
    assert_eq!(detector.detect_value_type("123.45"), DataType::Float);
    assert_eq!(detector.detect_value_type("-456.78"), DataType::Float);
}

#[test]
fn test_detect_boolean() {
    let detector = DataTypeDetector::new();
    assert_eq!(detector.detect_value_type("true"), DataType::Boolean);
    assert_eq!(detector.detect_value_type("FALSE"), DataType::Boolean);
}

#[test]
fn test_detect_date() {
    let detector = DataTypeDetector::new();
    assert_eq!(detector.detect_value_type("2024-01-15"), DataType::Date);
    assert_eq!(detector.detect_value_type("15/01/2024"), DataType::Date);
}

#[test]
fn test_detect_email() {
    let detector = DataTypeDetector::new();
    assert_eq!(detector.detect_value_type("test@example.com"), DataType::Email);
}

#[test]
fn test_detect_url() {
    let detector = DataTypeDetector::new();
    assert_eq!(detector.detect_value_type("https://example.com"), DataType::Url);
}

#[test]
fn numbers_are_known_as_the_standard_library_reads_them() {
    let inputs = [
        "", "0", "-0", "+7", "1.", ".5", ".", "1.5", "-1.5e10", "1e5", "1E5", "1e+5", "1e-5", "1e",
        "e5", "1e5.0", "1.5.2", "inf", "-inf", "+INF", "Infinity", "-infinity", "infinit", "nan",
        "NaN", "-nan", "+NAN", "nanx", "1_000", " 1", "1 ", "0x10", "1,5", "٣", "1٣", "--1", "+-1",
        "+", "-", "1e٣", "9223372036854775807", "9223372036854775808", "-9223372036854775808",
        "-9223372036854775809", "+9223372036854775807", "00000000000000000000000001",
        "99999999999999999999999999999999999999999999", "1e99999", "1.e5", ".e5", "1.5e", "İnf",
        "ınf", "Kelvin",
    ];
    for s in inputs {
        assert_eq!(str_is_float(s), s.parse::<f64>().is_ok(), "float {:?}", s);
        assert_eq!(str_is_i64(s), s.parse::<i64>().is_ok(), "integer {:?}", s);
    }
}

#[test]
fn kinds_are_tried_in_order() {
    let d = DataTypeDetector::new();
    assert_eq!(d.detect_value_type(""), DataType::Text);
    assert_eq!(d.detect_value_type("True"), DataType::Boolean);
    assert_eq!(d.detect_value_type("1e3"), DataType::Float);
    assert_eq!(d.detect_value_type("nan"), DataType::Float);
    assert_eq!(d.detect_value_type("01/15/2024"), DataType::Date);
    assert_eq!(d.detect_value_type("2024-01-15 10:30:00"), DataType::DateTime);
    assert_eq!(d.detect_value_type("2024-01-15T10:30:00"), DataType::DateTime);
    assert_eq!(d.detect_value_type("a b@example.com"), DataType::Text);
    assert_eq!(d.detect_value_type("http://x.y/z?q=1"), DataType::Url);
    assert_eq!(d.detect_value_type("ftp://x.y"), DataType::Text);
    assert_eq!(d.detect_value_type("{\"a\": 1}"), DataType::Json);
    assert_eq!(d.detect_value_type("[1, 2]"), DataType::Json);
    assert_eq!(d.detect_value_type("[1, 2"), DataType::Text);
    assert_eq!(d.detect_value_type("{a}"), DataType::Text);
    assert_eq!(d.detect_value_type("\"text\""), DataType::Text);
    assert_eq!(d.detect_value_type("hello"), DataType::Text);
}

#[test]
fn values_are_checked_against_a_kind() {
    let d = DataTypeDetector::new();
    assert!(d.validate_value("", &DataType::Integer));
    assert!(d.validate_value("12", &DataType::Integer));
    assert!(!d.validate_value("1.5", &DataType::Integer));
    assert!(d.validate_value("12", &DataType::Float));
    assert!(!d.validate_value("x", &DataType::Float));
    assert!(d.validate_value("false", &DataType::Boolean));
    assert!(!d.validate_value("no", &DataType::Boolean));
    assert!(d.validate_value("15/01/2024", &DataType::Date));
    assert!(!d.validate_value("2024-13-01", &DataType::Date));
    assert!(d.validate_value("2024-01-15 10:30:00", &DataType::DateTime));
    assert!(!d.validate_value("2024-01-15", &DataType::DateTime));
    assert!(d.validate_value("a@b.cd", &DataType::Email));
    assert!(!d.validate_value("a@b", &DataType::Email));
    assert!(d.validate_value("https://a.b", &DataType::Url));
    assert!(!d.validate_value("a.b", &DataType::Url));
    assert!(d.validate_value("42", &DataType::Json));
    assert!(!d.validate_value("{", &DataType::Json));
    assert!(d.validate_value("anything", &DataType::Text));
}

#[test]
fn the_kind_of_a_column_is_that_of_most_values() {
    let d = DataTypeDetector::new();
    let values = |items: &[&str]| items.iter().map(|s| s.to_string()).collect::<Vec<String>>();
    assert_eq!(d.detect_column_type(&values(&[])), DataType::Text);
    assert_eq!(d.detect_column_type(&values(&["", ""])), DataType::Text);
    assert_eq!(d.detect_column_type(&values(&["1", "x", "2", ""])), DataType::Integer);
    assert_eq!(d.detect_column_type(&values(&["x", "1.5", "y", "2"])), DataType::Text);
    assert_eq!(d.detect_column_type(&values(&["x", "1.5", "2"])), DataType::Integer);
    assert_eq!(d.detect_column_type(&values(&["true", "1.5"])), DataType::Float);
    assert_eq!(d.count_types(&values(&["1", "2", "x", "", "a@b.cd"])), vec![2, 0, 0, 0, 0, 1, 0, 0, 1]);
    assert_eq!(name_of_type(DataType::DateTime), "DateTime");
}

#[test]
fn columns_are_described_by_their_first_rows() {
    let d = DataTypeDetector::new();
    let headers = vec!["n".to_string(), "t".to_string()];
    let mut rows: Vec<Vec<String>> = (0..120).map(|i| vec![i.to_string()]).collect();
    rows[0].push("x".to_string());
    rows[2].push("".to_string());
    for row in rows.iter_mut().skip(100) {
        row[0] = "word".to_string();
        row.push("1".to_string());
    }
    let infos = d.detect_column_types(&headers, &rows);
    assert_eq!(
        infos,
        vec![
            ColumnTypeInfo {
                column_index: 0,
                column_name: "n".to_string(),
                detected_type: DataType::Integer,
                sample_values: (0..5).map(|i| i.to_string()).collect(),
            },
            ColumnTypeInfo {
                column_index: 1,
                column_name: "t".to_string(),
                detected_type: DataType::Text,
                sample_values: vec!["x".to_string(), "".to_string()],
            },
        ]
    );
}

#[test]
fn values_are_checked_against_expected_kinds() {
    let d = DataTypeDetector::new();
    let rows = vec![
        vec!["1".to_string(), "a@b.cd".to_string()],
        vec!["x".to_string(), "".to_string()],
        vec!["".to_string()],
        vec!["2.5".to_string(), "nobody".to_string()],
    ];
    let expected = vec![(1, DataType::Email), (0, DataType::Integer), (9, DataType::Date)];
    let result = d.validate_data_types(&rows, &expected);
    assert!(!result.is_valid);
    let found: Vec<(usize, usize, String)> = result
        .errors
        .iter()
        .map(|e| (e.row_index, e.column_index, e.message.clone()))
        .collect();
    assert_eq!(
        found,
        vec![
            (1, 0, "Value 'x' is not a valid integer".to_string()),
            (3, 1, "Value 'nobody' is not a valid email".to_string()),
            (3, 0, "Value '2.5' is not a valid integer".to_string()),
        ]
    );
    assert_eq!(result.errors[0].expected_type, DataType::Integer);
    assert_eq!(result.errors[0].value, "x");
    let fine = d.validate_data_types(&rows, &vec![(0, DataType::Text)]);
    assert!(fine.is_valid && fine.errors.is_empty());
}
