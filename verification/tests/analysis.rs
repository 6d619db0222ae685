use csv_light_editor::ai::analyzer::{count_values, put_member, AnalysisError, DataAnalyzer};
use csv_light_editor::ai::intent::{AnalysisType, TargetScope};
use csv_light_editor::ai::transformer::TransformError;
use csv_light_editor::json::Json;

fn table(rows: &[&[&str]]) -> Vec<Vec<String>> {
    rows.iter().map(|r| r.iter().map(|c| c.to_string()).collect()).collect()
}

fn names(all: &[&str]) -> Vec<String> {
    all.iter().map(|n| n.to_string()).collect()
}

#[test]
fn values_are_counted_most_frequent_first() {
    let rows = table(&[&["b", "1"], &["a", "1"], &["c"], &["a", "2"], &["b", "1"], &["a", "1"]]);
    assert_eq!(
        count_values(&rows, 0),
        vec![("a".to_string(), 3), ("b".to_string(), 2), ("c".to_string(), 1)]
    );
    // The short row holds nothing in the second column.
    assert_eq!(count_values(&rows, 1), vec![("1".to_string(), 4), ("2".to_string(), 1)]);
    assert_eq!(count_values(&rows, 2), vec![]);
    assert_eq!(count_values(&[], 0), vec![]);
}

#[test]
fn equally_frequent_values_keep_the_order_of_their_first_rows() {
    let rows = table(&[&["x"], &["y"], &["z"], &["y"], &["x"], &["w"]]);
    assert_eq!(
        count_values(&rows, 0),
        vec![
            ("x".to_string(), 2),
            ("y".to_string(), 2),
            ("z".to_string(), 1),
            ("w".to_string(), 1)
        ]
    );
}

#[test]
fn a_distribution_reports_each_column() {
    let headers = names(&["city", "n"]);
    let rows = table(&[&["b", "1"], &["a", "1"], &["c", "1"], &["a", "2"], &["b", "1"], &["a", "1"]]);
    let result = DataAnalyzer::new()
        .analyze(&AnalysisType::Distribution, &headers, &rows, &TargetScope::AllData)
        .unwrap();
    assert_eq!(result.summary, "Distribution analysis completed for 2 column(s).");
    assert_eq!(
        result.details.to_text().unwrap(),
        "{\"city\":{\"top_values\":[[\"a\",3],[\"b\",2],[\"c\",1]],\"total_values\":6,\"unique_values\":3},\
\"n\":{\"top_values\":[[\"1\",5],[\"2\",1]],\"total_values\":6,\"unique_values\":2}}"
    );
    assert_eq!(result.visualizations.len(), 2);
    assert_eq!(result.visualizations[0].viz_type, "histogram");
    assert_eq!(result.visualizations[0].title, "Distribution of city");
    assert_eq!(
        result.visualizations[0].data.to_text().unwrap(),
        "{\"labels\":[\"a\",\"b\",\"c\"],\"values\":[3,2,1]}"
    );
    assert_eq!(result.visualizations[1].title, "Distribution of n");
}

#[test]
fn a_distribution_shows_ten_values_at_most() {
    let rows: Vec<Vec<String>> = (0..25).map(|i| vec![format!("v{}", i % 12)]).collect();
    let headers = names(&["k"]);
    let result = DataAnalyzer::new().compute_distribution(&headers, &rows, &vec![0]);
    let column = result.details.get("k").unwrap();
    assert_eq!(column.unsigned_of("unique_values"), Some(12));
    assert_eq!(column.unsigned_of("total_values"), Some(25));
    let top = column.get("top_values").unwrap().as_array().unwrap();
    assert_eq!(top.len(), 10);
    // v0 occurs three times, the others twice.
    assert_eq!(top[0].as_array().unwrap()[0].as_str(), Some("v0"));
    assert_eq!(top[0].as_array().unwrap()[1].as_u64(), Some(3));
    assert_eq!(top[9].as_array().unwrap()[0].as_str(), Some("v9"));
    let labels = result.visualizations[0].data.get("labels").unwrap().as_array().unwrap();
    assert_eq!(labels.len(), 10);
}

#[test]
fn a_distribution_passes_over_columns_that_the_table_lacks() {
    let headers = names(&["a", "b"]);
    let rows = table(&[&["1", "2"], &["1", "3"]]);
    let scope = TargetScope::Selection { rows: vec![0, 1], columns: vec![1, 7, 1] };
    let result = DataAnalyzer::new()
        .analyze(&AnalysisType::Distribution, &headers, &rows, &scope)
        .unwrap();
    assert_eq!(result.summary, "Distribution analysis completed for 3 column(s).");
    // The column is reported once in the details, and drawn each time.
    assert_eq!(
        result.details.to_text().unwrap(),
        "{\"b\":{\"top_values\":[[\"2\",1],[\"3\",1]],\"total_values\":2,\"unique_values\":2}}"
    );
    match &result.details {
        Json::Object(members) => assert_eq!(members.len(), 1),
        other => panic!("not an object: {:?}", other),
    }
    assert_eq!(result.visualizations.len(), 2);
}

#[test]
fn a_distribution_needs_its_columns() {
    let headers = names(&["a"]);
    let rows = table(&[&["1"]]);
    assert_eq!(
        DataAnalyzer::new().analyze(
            &AnalysisType::Distribution,
            &headers,
            &rows,
            &TargetScope::Column { name: "zz".to_string() }
        ),
        Err(AnalysisError::Columns(TransformError::ColumnNotFound { name: "zz".to_string() }))
    );
    assert_eq!(
        DataAnalyzer::new().analyze(
            &AnalysisType::Correlation,
            &headers,
            &rows,
            &TargetScope::Column { name: "zz".to_string() }
        ),
        Err(AnalysisError::NotHere)
    );
}

#[test]
fn a_member_is_set_in_its_place() {
    let mut members = vec![
        ("a".to_string(), Json::Bool(true)),
        ("b".to_string(), Json::Null),
    ];
    put_member(&mut members, "a".to_string(), Json::Bool(false));
    put_member(&mut members, "c".to_string(), Json::Text("x".to_string()));
    assert_eq!(
        members,
        vec![
            ("a".to_string(), Json::Bool(false)),
            ("b".to_string(), Json::Null),
            ("c".to_string(), Json::Text("x".to_string())),
        ]
    );
}
