use csv_light_editor::ai_script::executor::ScriptExecutor;
use csv_light_editor::ai_script::error::ExecutionError;
use csv_light_editor::ai_script::models::{
    Change, DataChange, ExecutionResult, ExecutionState, ResultPayload,
};
use csv_light_editor::ai_script::protocol::ProgressEvent;
use csv_light_editor::commands::{
    ai_apply_changes, cancel_script_execution, data_missing, execute_script_failure,
    execute_script_response, get_script_progress, invalid_sort_column, row_limit,
    ApplyChangesRequest, CancelScriptExecutionRequest, ExecuteAiRequest,
    GetScriptProgressRequest, SortColumn, SortDirection, SortState,
};
use csv_light_editor::json::Json;

fn progress_of(executor: &ScriptExecutor, id: &str) -> Result<(usize, bool), String> {
    get_script_progress(executor, &GetScriptProgressRequest { execution_id: id.to_string() })
        .map(|r| (r.progress.processed_rows, r.is_completed))
}

#[test]
fn progress_is_answered_from_the_registry() {
    let mut executor = ScriptExecutor::new();
    assert_eq!(progress_of(&executor, "a"), Err("Execution not found".to_string()));
    executor.begin("a".to_string(), 4, 0).unwrap();
    executor.begin("b".to_string(), 4, 0).unwrap();
    assert_eq!(progress_of(&executor, "a"), Ok((0, false)));
    let half = ProgressEvent { processed: 2, total: 4, step: "half".to_string() };
    executor.report_progress("a", &half, 1);
    assert_eq!(progress_of(&executor, "a"), Ok((2, false)));
    let all = ProgressEvent { processed: 4, total: 4, step: "all".to_string() };
    executor.report_progress("a", &all, 2);
    assert_eq!(progress_of(&executor, "a"), Ok((4, true)));
    // An execution that failed early is over as well.
    assert_eq!(executor.complete("b", Err(ExecutionError::NoResultFound)), Ok(ExecutionState::Failed));
    assert_eq!(progress_of(&executor, "b"), Ok((0, true)));
}

#[test]
fn cancellation_is_answered_in_words() {
    let mut executor = ScriptExecutor::new();
    executor.begin("a".to_string(), 4, 0).unwrap();
    let request = CancelScriptExecutionRequest { execution_id: "a".to_string() };
    let response = cancel_script_execution(&mut executor, &request);
    assert!(response.success);
    assert_eq!(response.message, "Execution cancelled");
    assert!(executor.is_cancelled("a"));
    let unknown = CancelScriptExecutionRequest { execution_id: "zz".to_string() };
    let response = cancel_script_execution(&mut executor, &unknown);
    assert!(!response.success);
    assert_eq!(
        response.message,
        format!("Failed to cancel execution: {}", ExecutionError::NotFound.message())
    );
}

#[test]
fn a_request_takes_rows_up_to_its_limit() {
    let rows: Vec<Vec<String>> = (0..5).map(|i| vec![i.to_string()]).collect();
    let mut request = ExecuteAiRequest {
        prompt: "trim".to_string(),
        headers: vec!["a".to_string()],
        rows,
        max_rows: None,
    };
    assert!(!data_missing(&request));
    assert_eq!(row_limit(&request), 5);
    request.max_rows = Some(3);
    assert_eq!(row_limit(&request), 3);
    request.max_rows = Some(0);
    assert_eq!(row_limit(&request), 0);
    request.rows = (0..10_001).map(|i| vec![i.to_string()]).collect();
    request.max_rows = None;
    assert_eq!(row_limit(&request), 10_000);
    request.rows.clear();
    assert!(data_missing(&request));
    request.rows.push(vec![]);
    request.headers.clear();
    assert!(data_missing(&request));
}

#[test]
fn changes_to_apply_are_counted() {
    let change = DataChange {
        row_index: 0,
        column_index: 0,
        old_value: "a".to_string(),
        new_value: "b".to_string(),
    };
    assert_eq!(ai_apply_changes(&ApplyChangesRequest { changes: vec![change.clone(), change] }), 2);
    assert_eq!(ai_apply_changes(&ApplyChangesRequest { changes: vec![] }), 0);
}

#[test]
fn a_sort_column_that_the_table_lacks_is_found() {
    let by = |column_index: usize| SortColumn { column_index, direction: SortDirection::Descending };
    let state = SortState { columns: vec![by(0), by(5), by(2), by(7)] };
    assert_eq!(invalid_sort_column(&state, 8), None);
    assert_eq!(invalid_sort_column(&state, 6), Some(7));
    assert_eq!(invalid_sort_column(&state, 3), Some(5));
    assert_eq!(invalid_sort_column(&state, 0), Some(0));
    assert_eq!(invalid_sort_column(&SortState { columns: vec![] }, 0), None);
}

#[test]
fn the_answer_to_a_run_sets_the_edits_apart() {
    let change = DataChange {
        row_index: 1,
        column_index: 2,
        old_value: "a".to_string(),
        new_value: "b".to_string(),
    };
    let unified = Change::RemoveRow { row_index: 3 };
    let result = ExecutionResult {
        execution_id: "run".to_string(),
        started_at: 1,
        completed_at: Some(2),
        result: ResultPayload::Transformation {
            changes: Some(vec![change.clone()]),
            unified_changes: Some(vec![unified.duplicate()]),
            preview: vec![],
        },
        error: None,
    };
    let response = execute_script_response(&result);
    assert_eq!(response.execution_id, "run");
    assert_eq!(response.result, result.result);
    assert_eq!(response.changes, Some(vec![change]));
    assert_eq!(response.unified_changes, Some(vec![unified]));

    let analysis = ExecutionResult {
        execution_id: "other".to_string(),
        started_at: 1,
        completed_at: Some(2),
        result: ResultPayload::Analysis { summary: "ok".to_string(), details: Json::empty_object() },
        error: None,
    };
    let response = execute_script_response(&analysis);
    assert_eq!(response.result, analysis.result);
    assert_eq!(response.changes, None);
    assert_eq!(response.unified_changes, None);
}

#[test]
fn a_failed_run_is_answered_by_the_words_of_its_failure() {
    assert_eq!(
        execute_script_failure(&ExecutionError::SecurityViolation { pattern: "x".to_string() }),
        "The script contains potentially unsafe operations and was blocked for security reasons."
    );
    assert_eq!(
        execute_script_failure(&ExecutionError::Cancelled),
        "Execution was cancelled or timed out."
    );
    assert_eq!(
        execute_script_failure(&ExecutionError::Io { reason: "invalid syntax".to_string() }),
        "Python syntax error. The generated script may need to be reviewed."
    );
    assert_eq!(
        execute_script_failure(&ExecutionError::SpawnFailure { reason: "no access".to_string() }),
        "Permission denied. The script may be trying to access restricted resources."
    );
    assert_eq!(
        execute_script_failure(&ExecutionError::SpawnFailure { reason: "gone".to_string() }),
        format!(
            "Script execution failed: {}",
            ExecutionError::SpawnFailure { reason: "gone".to_string() }.message()
        )
    );
}
