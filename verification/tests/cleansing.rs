use csv_light_editor::csv_engine::cleansing::{
    CleansingAction, CleansingOptions, DataCleanser, ModificationDetail,
};

fn table(rows: &[&[&str]]) -> Vec<Vec<String>> {
    rows.iter().map(|r| r.iter().map(|c| c.to_string()).collect()).collect()
}

fn options(action: CleansingAction) -> CleansingOptions {
    CleansingOptions { action, column_indices: None, parameters: Vec::new() }
}

#[test]
fn test_trim_whitespace() {
    let mut data = vec![
        vec!["  John  ".to_string(), "  Doe  ".to_string()],
        vec!["Jane".to_string(), "Smith  ".to_string()],
    ];

    let options = CleansingOptions {
        action: CleansingAction::TrimWhitespace,
        column_indices: None,
        parameters: Vec::new(),
    };

    let result = DataCleanser::cleanse(&mut data, &[], &options).unwrap();
    assert_eq!(result.cells_modified, 3);
    assert_eq!(data[0][0], "John");
}

#[test]
fn test_remove_duplicates() {
    let mut data = vec![
        vec!["John".to_string(), "25".to_string()],
        vec!["Jane".to_string(), "30".to_string()],
        vec!["John".to_string(), "25".to_string()],
    ];

    let options = CleansingOptions {
        action: CleansingAction::RemoveDuplicates,
        column_indices: None,
        parameters: Vec::new(),
    };

    let result = DataCleanser::cleanse(&mut data, &[], &options).unwrap();
    assert_eq!(result.rows_affected, 1);
    assert_eq!(data.len(), 2);
}

#[test]
fn trim_reports_each_changed_cell_in_reading_order() {
    let mut data = table(&[&[" a", "b"], &["c ", "\td\n"]]);
    let result = DataCleanser::cleanse(&mut data, &[], &options(CleansingAction::TrimWhitespace))
        .unwrap();
    assert_eq!(data, table(&[&["a", "b"], &["c", "d"]]));
    assert_eq!(
        result.modifications,
        vec![
            ModificationDetail {
                row_index: 0,
                column_index: 0,
                old_value: " a".to_string(),
                new_value: "a".to_string(),
            },
            ModificationDetail {
                row_index: 1,
                column_index: 0,
                old_value: "c ".to_string(),
                new_value: "c".to_string(),
            },
            ModificationDetail {
                row_index: 1,
                column_index: 1,
                old_value: "\td\n".to_string(),
                new_value: "d".to_string(),
            },
        ]
    );
    assert_eq!(result.rows_affected, 3);
}

#[test]
fn trim_keeps_to_the_named_columns() {
    let mut data = table(&[&[" a ", " b "], &[" c "]]);
    let mut opts = options(CleansingAction::TrimWhitespace);
    opts.column_indices = Some(vec![1]);
    let result = DataCleanser::cleanse(&mut data, &[], &opts).unwrap();
    assert_eq!(data, table(&[&[" a ", "b"], &[" c "]]));
    assert_eq!(result.cells_modified, 1);
}

#[test]
fn duplicates_are_compared_by_joined_cells() {
    let mut data = table(&[&["a|b"], &["a", "b"], &["x"], &["a|b"]]);
    let result = DataCleanser::remove_duplicates(&mut data);
    assert_eq!(data, table(&[&["a|b"], &["x"]]));
    assert_eq!(result.rows_affected, 2);
    assert_eq!(result.cells_modified, 0);
}

#[test]
fn fill_custom_fills_blank_cells() {
    let mut data = table(&[&["1", " "], &["", "2"]]);
    let mut opts = options(CleansingAction::FillMissingValues);
    opts.parameters = vec![
        ("method".to_string(), "custom".to_string()),
        ("value".to_string(), "n/a".to_string()),
    ];
    let result = DataCleanser::cleanse(&mut data, &[], &opts).unwrap();
    assert_eq!(data, table(&[&["1", "n/a"], &["n/a", "2"]]));
    assert_eq!(result.cells_modified, 2);
}

#[test]
fn fill_custom_without_value_changes_nothing() {
    let mut data = table(&[&["1", ""]]);
    let mut opts = options(CleansingAction::FillMissingValues);
    opts.parameters = vec![("method".to_string(), "custom".to_string())];
    let result = DataCleanser::cleanse(&mut data, &[], &opts).unwrap();
    assert_eq!(data, table(&[&["1", ""]]));
    assert_eq!(result.cells_modified, 0);
}

#[test]
fn forward_fill_takes_the_nearest_value_above() {
    let mut data = table(&[&["", "x"], &["a", ""], &["", ""], &["b", " "], &[""]]);
    let mut opts = options(CleansingAction::FillMissingValues);
    opts.parameters = vec![("method".to_string(), "forward_fill".to_string())];
    let result = DataCleanser::cleanse(&mut data, &[], &opts).unwrap();
    assert_eq!(data, table(&[&["", "x"], &["a", "x"], &["a", "x"], &["b", "x"], &["b"]]));
    assert_eq!(result.cells_modified, 5);
}

#[test]
fn a_later_parameter_replaces_an_earlier_one() {
    let mut data = table(&[&[""]]);
    let mut opts = options(CleansingAction::FillMissingValues);
    opts.parameters = vec![
        ("method".to_string(), "forward_fill".to_string()),
        ("value".to_string(), "first".to_string()),
        ("value".to_string(), "second".to_string()),
        ("method".to_string(), "custom".to_string()),
    ];
    DataCleanser::cleanse(&mut data, &[], &opts).unwrap();
    assert_eq!(data, table(&[&["second"]]));
}

#[test]
fn fill_with_unknown_method_changes_nothing() {
    let mut data = table(&[&["", "x"]]);
    let result =
        DataCleanser::cleanse(&mut data, &[], &options(CleansingAction::FillMissingValues)).unwrap();
    assert_eq!(data, table(&[&["", "x"]]));
    assert_eq!(result.rows_affected, 0);
    assert!(result.modifications.is_empty());
}

#[test]
fn normalize_text_collapses_whitespace() {
    let mut data = table(&[&["  a \t b\n\nc ", "ok"]]);
    let result =
        DataCleanser::cleanse(&mut data, &[], &options(CleansingAction::NormalizeText)).unwrap();
    assert_eq!(data, table(&[&["a b c", "ok"]]));
    assert_eq!(result.cells_modified, 1);
}

#[test]
fn actions_on_fractional_numbers_are_not_carried_out() {
    let original = table(&[&["1", " 2"], &["1000", ""]]);
    let mut data = original.clone();
    assert!(
        DataCleanser::cleanse(&mut data, &[], &options(CleansingAction::RemoveOutliers)).is_none()
    );
    let mut numbers = options(CleansingAction::StandardizeFormat);
    numbers.parameters = vec![("type".to_string(), "number".to_string())];
    assert!(DataCleanser::cleanse(&mut data, &[], &numbers).is_none());
    let mut opts = options(CleansingAction::FillMissingValues);
    opts.parameters = vec![("method".to_string(), "mean".to_string())];
    assert!(DataCleanser::cleanse(&mut data, &[], &opts).is_none());
    assert_eq!(data, original);
}

#[test]
fn test_standardize_date() {
    assert_eq!(
        DataCleanser::standardize_date("01/15/2024"),
        Some("2024-01-15".to_string())
    );
    assert_eq!(
        DataCleanser::standardize_date("2024-01-15"),
        Some("2024-01-15".to_string())
    );
}

#[test]
fn standard_forms() {
    assert_eq!(DataCleanser::standardize_date("15/01/2024"), Some("2024-01-15".to_string()));
    assert_eq!(DataCleanser::standardize_date("2024/01/15"), Some("2024-01-15".to_string()));
    assert_eq!(DataCleanser::standardize_date("15-01-2024"), Some("2024-01-15".to_string()));
    assert_eq!(DataCleanser::standardize_date("01-15-2024"), Some("2024-01-15".to_string()));
    assert_eq!(DataCleanser::standardize_date("31/02/2024"), None);
    assert_eq!(DataCleanser::standardize_date("soon"), None);
    assert_eq!(
        DataCleanser::standardize_phone("+1 (555) 123-4567 ext"),
        None
    );
    assert_eq!(DataCleanser::standardize_phone("555.123.4567"), Some("(555) 123-4567".to_string()));
    assert_eq!(DataCleanser::standardize_phone("5551234567"), Some("(555) 123-4567".to_string()));
    assert_eq!(DataCleanser::standardize_phone("555123456"), None);
    assert_eq!(DataCleanser::standardize_phone("٥551234567"), None);
    assert_eq!(DataCleanser::standardize_phone("5551234567٥"), None);
    assert_eq!(
        DataCleanser::standardize_email("  John.DOE@Example.COM "),
        Some("john.doe@example.com".to_string())
    );
}

#[test]
fn standardize_format_by_type() {
    let standardize = |kind: Option<&str>, cells: &[&str]| {
        let mut data = table(&[cells]);
        let mut opts = options(CleansingAction::StandardizeFormat);
        if let Some(kind) = kind {
            opts.parameters = vec![("type".to_string(), kind.to_string())];
        }
        let result = DataCleanser::cleanse(&mut data, &[], &opts);
        (data.remove(0), result.map(|r| r.cells_modified))
    };
    assert_eq!(
        standardize(None, &["01/15/2024", "", "2024-01-15x", "2024-01-15"]),
        (
            vec![
                "2024-01-15".to_string(),
                "".to_string(),
                "2024-01-15x".to_string(),
                "2024-01-15".to_string(),
            ],
            Some(1)
        )
    );
    assert_eq!(
        standardize(Some("date"), &["15/01/2024"]),
        (vec!["2024-01-15".to_string()], Some(1))
    );
    assert_eq!(
        standardize(Some("phone"), &["555-123-4567", "12", ""]),
        (vec!["(555) 123-4567".to_string(), "12".to_string(), "".to_string()], Some(1))
    );
    assert_eq!(
        standardize(Some("email"), &[" A@B.c ", "a@b.c", ""]),
        (vec!["a@b.c".to_string(), "a@b.c".to_string(), "".to_string()], Some(1))
    );
    assert_eq!(standardize(Some("colour"), &["Red"]), (vec!["Red".to_string()], Some(0)));
    assert_eq!(standardize(Some("number"), &["1,000"]), (vec!["1,000".to_string()], None));
}
