use csv_light_editor::csv_engine::quality::{DuplicateRow, QualityAnalyzer};

fn table(rows: &[&[&str]]) -> Vec<Vec<String>> {
    rows.iter().map(|r| r.iter().map(|c| c.to_string()).collect()).collect()
}

#[test]
fn test_detect_duplicates() {
    let data = vec![
        vec!["John".to_string(), "25".to_string()],
        vec!["Jane".to_string(), "30".to_string()],
        vec!["John".to_string(), "25".to_string()],
    ];

    let report = QualityAnalyzer::detect_duplicates(&data);
    assert_eq!(report.total_duplicates, 1);
    assert_eq!(report.duplicate_rows.len(), 1);
}

#[test]
fn groups_are_listed_larger_first() {
    let data = table(&[&["a"], &["b"], &["c"], &["b"], &["a"], &["b"], &["d"], &["d"]]);
    let report = QualityAnalyzer::detect_duplicates(&data);
    assert_eq!(report.total_duplicates, 4);
    assert_eq!(
        report.duplicate_rows,
        vec![
            DuplicateRow { row_indices: vec![1, 3, 5], count: 3 },
            DuplicateRow { row_indices: vec![0, 4], count: 2 },
            DuplicateRow { row_indices: vec![6, 7], count: 2 },
        ]
    );
}

#[test]
fn a_table_without_repeats_has_no_groups() {
    let report = QualityAnalyzer::detect_duplicates(&table(&[&["a", "b"], &["a"], &["b"]]));
    assert_eq!(report.total_duplicates, 0);
    assert!(report.duplicate_rows.is_empty());
    let report = QualityAnalyzer::detect_duplicates(&[]);
    assert_eq!(report.total_duplicates, 0);
    assert!(report.duplicate_rows.is_empty());
}

#[test]
fn rows_are_compared_by_their_joined_cells() {
    let report = QualityAnalyzer::detect_duplicates(&table(&[&["a|b"], &["a", "b"], &[], &[""]]));
    assert_eq!(report.total_duplicates, 2);
    assert_eq!(
        report.duplicate_rows,
        vec![
            DuplicateRow { row_indices: vec![0, 1], count: 2 },
            DuplicateRow { row_indices: vec![2, 3], count: 2 },
        ]
    );
}

#[test]
fn test_analyze_columns() {
    let data = vec![
        vec!["John".to_string(), "25".to_string()],
        vec!["Jane".to_string(), "30".to_string()],
        vec!["".to_string(), "35".to_string()],
    ];
    let headers = vec!["name".to_string(), "age".to_string()];

    let reports = QualityAnalyzer::analyze_columns(&data, &headers);

    assert_eq!(reports.len(), 2);
    assert_eq!(reports[0].empty_count, 1);
    assert_eq!(reports[0].unique_count, 2);
    assert_eq!(reports[1].empty_count, 0);
}

#[test]
fn columns_are_counted_exactly() {
    let data = table(&[&["a", "1"], &[" ", "x"], &["a", "2.5"], &["b"], &["a", "7"], &["", "1"]]);
    let headers = vec!["letters".to_string(), "mixed".to_string(), "none".to_string()];
    let reports = QualityAnalyzer::analyze_columns(&data, &headers);
    assert_eq!(reports.len(), 3);
    let r = &reports[0];
    assert_eq!(
        (r.column_index, r.column_name.as_str(), r.total_values, r.empty_count, r.unique_count),
        (0, "letters", 6, 2, 2)
    );
    assert_eq!((r.dominant_type.as_str(), r.dominant_count), ("Text", 4));
    let r = &reports[1];
    assert_eq!((r.total_values, r.empty_count, r.unique_count), (6, 0, 4));
    assert_eq!((r.dominant_type.as_str(), r.dominant_count), ("Integer", 3));
    let r = &reports[2];
    assert_eq!((r.total_values, r.empty_count, r.unique_count), (6, 0, 0));
    assert_eq!((r.dominant_type.as_str(), r.dominant_count), ("Text", 0));
}
