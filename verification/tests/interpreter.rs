use csv_light_editor::ai_script::encoding::encode_payload;
use csv_light_editor::ai_script::error::ExecutionError;
use csv_light_editor::ai_script::executor::ScriptExecutor;
use csv_light_editor::ai_script::interpreter::{decode_payload, parse_result};
use csv_light_editor::ai_script::models::{
    Change, ChangePreview, ColumnPosition, DataChange, ResultPayload, RowPosition,
};
use csv_light_editor::json::Json;

fn analysis(line: &str) -> (String, String) {
    match parse_result(line).unwrap() {
        ResultPayload::Analysis { summary, details } => (summary, details.to_text().unwrap()),
        other => panic!("not an analysis: {:?}", other),
    }
}

#[test]
fn analysis_with_string_summary() {
    let (summary, details) = analysis("{\"type\":\"analysis\",\"summary\":\"ok\",\"details\":{}}");
    assert_eq!(summary, "ok");
    assert_eq!(details, "{}");
}

#[test]
fn analysis_summary_of_other_shapes() {
    let (summary, details) =
        analysis("{\"type\":\"analysis\",\"summary\":{\"rows\":3},\"details\":{\"a\":[1]}}");
    assert_eq!(summary, "{\n  \"rows\": 3\n}");
    assert_eq!(details, "{\"a\":[1]}");
    assert_eq!(analysis("{\"type\":\"analysis\",\"summary\":[1,2]}").0, "[\n  1,\n  2\n]");
    assert_eq!(analysis("{\"type\":\"analysis\",\"summary\":[1,2]}").1, "{}");
    assert_eq!(analysis("{\"type\":\"analysis\",\"summary\":42}").0, "42");
    assert_eq!(analysis("{\"type\":\"analysis\",\"summary\":-1.5}").0, "-1.5");
    assert_eq!(analysis("{\"type\":\"analysis\",\"summary\":true}").0, "true");
    assert_eq!(analysis("{\"type\":\"analysis\",\"summary\":false}").0, "false");
    assert_eq!(analysis("{\"type\":\"analysis\",\"summary\":null}").0, "null");
    assert_eq!(analysis("{\"type\":\"analysis\"}").0, "Analysis completed");
}

#[test]
fn transformation_with_flat_changes() {
    let line = "{\"type\":\"transformation\",\"changes\":[{\"row\":0,\"col\":1,\"old_value\":\"a\",\"new_value\":\"b\"},{\"row\":\"x\",\"col\":1,\"old_value\":\"a\",\"new_value\":\"b\"},{\"row\":2,\"col\":3,\"old_value\":\"c\",\"new_value\":\"\"}],\"preview\":[{\"row\":0,\"col\":1,\"column_name\":\"n\",\"old_value\":\"a\",\"new_value\":\"b\"},{\"row\":0,\"col\":1,\"old_value\":\"a\",\"new_value\":\"b\"}]}";
    match parse_result(line).unwrap() {
        ResultPayload::Transformation { changes, unified_changes, preview } => {
            assert_eq!(
                changes,
                Some(vec![
                    DataChange {
                        row_index: 0,
                        column_index: 1,
                        old_value: "a".to_string(),
                        new_value: "b".to_string(),
                    },
                    DataChange {
                        row_index: 2,
                        column_index: 3,
                        old_value: "c".to_string(),
                        new_value: "".to_string(),
                    },
                ])
            );
            assert_eq!(unified_changes, None);
            assert_eq!(
                preview,
                vec![ChangePreview {
                    row_index: 0,
                    column_index: 1,
                    column_name: "n".to_string(),
                    old_value: "a".to_string(),
                    new_value: "b".to_string(),
                }]
            );
        },
        other => panic!("not a transformation: {:?}", other),
    }
}

#[test]
fn transformation_with_unified_changes() {
    let line = "{\"type\":\"transformation\",\"unified_changes\":[{\"type\":\"cell\",\"row_index\":1,\"column_index\":2,\"old_value\":\"a\",\"new_value\":\"b\"},{\"type\":\"add_column\",\"column_index\":0,\"column_name\":\"n\",\"position\":\"after\"},{\"type\":\"add_column\",\"column_index\":0,\"column_name\":\"n\",\"position\":\"before\",\"default_value\":\"d\"},{\"type\":\"remove_column\",\"column_index\":4,\"column_name\":\"gone\"},{\"type\":\"rename_column\",\"column_index\":1,\"old_name\":\"o\",\"new_name\":\"n\"},{\"type\":\"add_row\",\"row_index\":3,\"position\":\"before\",\"row_data\":[\"x\",\"y\"]},{\"type\":\"add_row\",\"row_index\":3,\"position\":\"after\",\"row_data\":null},{\"type\":\"remove_row\",\"row_index\":9},{\"type\":\"remove_row\"},{\"type\":\"add_row\",\"row_index\":3,\"position\":\"middle\"},{\"type\":\"add_row\",\"row_index\":3,\"position\":\"after\",\"row_data\":[1]},{\"type\":\"swap\",\"row_index\":3}],\"preview\":[]}";
    match parse_result(line).unwrap() {
        ResultPayload::Transformation { changes, unified_changes, preview } => {
            assert_eq!(changes, None);
            assert!(preview.is_empty());
            assert_eq!(
                unified_changes,
                Some(vec![
                    Change::Cell {
                        row_index: 1,
                        column_index: 2,
                        old_value: "a".to_string(),
                        new_value: "b".to_string(),
                    },
                    Change::AddColumn {
                        column_index: 0,
                        column_name: "n".to_string(),
                        position: ColumnPosition::After,
                        default_value: None,
                    },
                    Change::AddColumn {
                        column_index: 0,
                        column_name: "n".to_string(),
                        position: ColumnPosition::Before,
                        default_value: Some("d".to_string()),
                    },
                    Change::RemoveColumn { column_index: 4, column_name: "gone".to_string() },
                    Change::RenameColumn {
                        column_index: 1,
                        old_name: "o".to_string(),
                        new_name: "n".to_string(),
                    },
                    Change::AddRow {
                        row_index: 3,
                        position: RowPosition::Before,
                        row_data: Some(vec!["x".to_string(), "y".to_string()]),
                    },
                    Change::AddRow { row_index: 3, position: RowPosition::After, row_data: None },
                    Change::RemoveRow { row_index: 9 },
                ])
            );
        },
        other => panic!("not a transformation: {:?}", other),
    }
}

#[test]
fn transformation_without_lists() {
    match parse_result("{\"type\":\"transformation\",\"changes\":null}").unwrap() {
        ResultPayload::Transformation { changes, unified_changes, preview } => {
            assert_eq!(changes, None);
            assert_eq!(unified_changes, None);
            assert!(preview.is_empty());
        },
        other => panic!("not a transformation: {:?}", other),
    }
    match parse_result("{\"type\":\"transformation\",\"changes\":[],\"unified_changes\":[]}").unwrap()
    {
        ResultPayload::Transformation { changes, unified_changes, .. } => {
            assert_eq!(changes, Some(vec![]));
            assert_eq!(unified_changes, Some(vec![]));
        },
        other => panic!("not a transformation: {:?}", other),
    }
}

#[test]
fn error_result() {
    match parse_result("{\"type\":\"error\",\"message\":\"bad column\"}").unwrap() {
        ResultPayload::Error { message } => assert_eq!(message, "bad column"),
        other => panic!("not an error: {:?}", other),
    }
    match parse_result("{\"type\":\"error\",\"message\":5}").unwrap() {
        ResultPayload::Error { message } => assert_eq!(message, "Unknown error"),
        other => panic!("not an error: {:?}", other),
    }
}

#[test]
fn what_is_no_result() {
    assert_eq!(parse_result("not json").unwrap_err(), ExecutionError::MalformedResult);
    assert_eq!(parse_result("{\"type\":\"other\"}").unwrap_err(), ExecutionError::UnknownResultType);
    assert_eq!(parse_result("{\"summary\":\"x\"}").unwrap_err(), ExecutionError::UnknownResultType);
    assert_eq!(parse_result("[1]").unwrap_err(), ExecutionError::UnknownResultType);
    assert_eq!(parse_result("{\"type\":7}").unwrap_err(), ExecutionError::UnknownResultType);
    assert_eq!(
        ScriptExecutor::parse_result("{\"type\":\"progress\"}").unwrap_err(),
        ExecutionError::UnknownResultType
    );
    assert_eq!(ExecutionError::MalformedResult.message(), "Failed to parse result JSON");
    assert_eq!(ExecutionError::UnknownResultType.message(), "Unknown result type");
}

fn change(row: usize) -> DataChange {
    DataChange {
        row_index: row,
        column_index: 7,
        old_value: "o\"ld".to_string(),
        new_value: "né\nw".to_string(),
    }
}

fn unified() -> Vec<Change> {
    vec![
        Change::Cell {
            row_index: usize::MAX,
            column_index: 0,
            old_value: "".to_string(),
            new_value: "x".to_string(),
        },
        Change::AddColumn {
            column_index: 1,
            column_name: "c".to_string(),
            position: ColumnPosition::Before,
            default_value: None,
        },
        Change::AddColumn {
            column_index: 1,
            column_name: "c".to_string(),
            position: ColumnPosition::After,
            default_value: Some("d".to_string()),
        },
        Change::RemoveColumn { column_index: 2, column_name: "r".to_string() },
        Change::RenameColumn {
            column_index: 3,
            old_name: "a".to_string(),
            new_name: "b".to_string(),
        },
        Change::AddRow { row_index: 4, position: RowPosition::After, row_data: None },
        Change::AddRow {
            row_index: 4,
            position: RowPosition::Before,
            row_data: Some(vec!["p".to_string(), "".to_string()]),
        },
        Change::RemoveRow { row_index: 5 },
    ]
}

fn round_trip(changes: Option<Vec<DataChange>>, unified_changes: Option<Vec<Change>>) {
    let preview = vec![ChangePreview {
        row_index: 1,
        column_index: 2,
        column_name: "n".to_string(),
        old_value: "a".to_string(),
        new_value: "b".to_string(),
    }];
    let payload = ResultPayload::Transformation {
        changes: changes.clone(),
        unified_changes: unified_changes.clone(),
        preview: preview.clone(),
    };
    let line = encode_payload(&payload).to_text().unwrap();
    match parse_result(&line).unwrap() {
        ResultPayload::Transformation { changes: c, unified_changes: u, preview: p } => {
            assert_eq!(c, changes);
            assert_eq!(u, unified_changes);
            assert_eq!(p, preview);
        },
        other => panic!("not a transformation: {:?}", other),
    }
}

#[test]
fn both_forms_of_changes_survive_a_round_trip() {
    round_trip(Some(vec![change(0), change(3)]), None);
    round_trip(None, Some(unified()));
    round_trip(Some(vec![change(1)]), Some(unified()));
    round_trip(None, None);
    round_trip(Some(vec![]), Some(vec![]));
}

#[test]
fn the_forms_are_told_apart() {
    let only_flat = ResultPayload::Transformation {
        changes: Some(vec![change(0)]),
        unified_changes: None,
        preview: vec![],
    };
    let only_unified = ResultPayload::Transformation {
        changes: None,
        unified_changes: Some(vec![Change::Cell {
            row_index: 0,
            column_index: 7,
            old_value: "o\"ld".to_string(),
            new_value: "né\nw".to_string(),
        }]),
        preview: vec![],
    };
    let a = encode_payload(&only_flat).to_text().unwrap();
    let b = encode_payload(&only_unified).to_text().unwrap();
    assert_ne!(a, b);
    assert_eq!(
        a,
        "{\"changes\":[{\"col\":7,\"new_value\":\"né\\nw\",\"old_value\":\"o\\\"ld\",\"row\":0}],\"preview\":[],\"type\":\"transformation\",\"unified_changes\":null}"
    );
}

#[test]
fn other_payloads_survive_a_round_trip() {
    let details = Json::parse("{\"k\":[1,2,{\"z\":null}]}").unwrap();
    let payload = ResultPayload::Analysis { summary: "s".to_string(), details };
    let doc = encode_payload(&payload);
    match decode_payload(&doc).unwrap() {
        ResultPayload::Analysis { summary, details } => {
            assert_eq!(summary, "s");
            assert_eq!(details.to_text().unwrap(), "{\"k\":[1,2,{\"z\":null}]}");
        },
        other => panic!("not an analysis: {:?}", other),
    }
    let doc = encode_payload(&ResultPayload::Error { message: "m".to_string() });
    assert_eq!(doc.to_text().unwrap(), "{\"message\":\"m\",\"type\":\"error\"}");
    match decode_payload(&doc).unwrap() {
        ResultPayload::Error { message } => assert_eq!(message, "m"),
        other => panic!("not an error: {:?}", other),
    }
}
