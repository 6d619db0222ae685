use csv_light_editor::ai_script::error::{ExecutionError, FailureClass};
use csv_light_editor::ai_script::executor::ScriptExecutor;
use csv_light_editor::ai_script::models::{
    ExecutionState, ResultPayload, Script, ScriptType,
};
use csv_light_editor::ai_script::runner::ProcessExit;

fn script(content: &str) -> Script {
    Script::new(content.to_string(), ScriptType::Analysis, "request".to_string())
}

fn lines(items: &[&str]) -> Vec<String> {
    items.iter().map(|s| s.to_string()).collect()
}

fn table() -> (Vec<String>, Vec<Vec<String>>) {
    (
        vec!["name".to_string(), "age".to_string()],
        vec![
            vec!["Ann".to_string(), "31".to_string()],
            vec!["Bob".to_string(), "27".to_string()],
        ],
    )
}

fn ok() -> ProcessExit {
    ProcessExit { success: true, stderr: Some(String::new()) }
}

#[test]
fn a_benign_analysis_completes_with_its_summary_and_details() {
    let mut executor = ScriptExecutor::new();
    let (headers, rows) = table();
    let output = lines(&["{\"type\":\"analysis\",\"summary\":\"ok\",\"details\":{}}"]);
    let result = executor
        .execute_script(&script("print('x')"), &headers, &rows, &output, &ok())
        .unwrap();
    match &result.result {
        ResultPayload::Analysis { summary, details } => {
            assert_eq!(summary, "ok");
            assert_eq!(details.to_text().unwrap(), "{}");
        },
        other => panic!("not an analysis: {:?}", other),
    }
    assert_eq!(result.error, None);
    assert!(result.completed_at.unwrap() >= result.started_at);
    assert_eq!(executor.state(&result.execution_id), Some(ExecutionState::Completed));
    assert_eq!(executor.get_progress(&result.execution_id).unwrap().total_rows, 2);
    match executor.reap(&result.execution_id) {
        Some(Ok(kept)) => assert_eq!(kept, result),
        other => panic!("unexpected outcome: {:?}", other),
    }
    assert_eq!(executor.state(&result.execution_id), None);
}

#[test]
fn progress_is_followed_and_is_never_the_result() {
    let mut executor = ScriptExecutor::new();
    executor.begin("run".to_string(), 2, 0).unwrap();
    let first = lines(&["{\"type\":\"progress\",\"processed\":1,\"total\":2,\"step\":\"first\"}"]);
    let silent = ProcessExit { success: true, stderr: None };
    assert_eq!(
        executor.execute_script_internal("run", &first, &silent, 0, 5).unwrap_err(),
        ExecutionError::NoResultFound
    );
    let p = executor.get_progress("run").unwrap();
    assert_eq!((p.percent(), p.current_step.as_str(), p.last_updated), (50, "first", 5));

    let rest = lines(&[
        "{\"type\":\"progress\",\"processed\":2,\"total\":2,\"step\":\"second\"}",
        "{\"type\":\"analysis\",\"summary\":\"done\",\"details\":{\"rows\":2}}",
        "{\"type\":\"progress\",\"processed\":2,\"total\":2,\"step\":\"closing\"}",
    ]);
    let result = executor.execute_script_internal("run", &rest, &ok(), 0, 9).unwrap();
    let p = executor.get_progress("run").unwrap();
    assert_eq!((p.percent(), p.current_step.as_str(), p.last_updated), (100, "closing", 9));
    match result.result {
        ResultPayload::Analysis { summary, details } => {
            assert_eq!(summary, "done");
            assert_eq!(details.to_text().unwrap(), "{\"rows\":2}");
        },
        other => panic!("not an analysis: {:?}", other),
    }
    assert_eq!(result.execution_id, "run");
    assert_eq!((result.started_at, result.completed_at), (0, Some(9)));
}

#[test]
fn a_script_with_wrong_indentation_fails_with_the_offending_line() {
    let mut executor = ScriptExecutor::new();
    let (headers, rows) = table();
    let exit = ProcessExit {
        success: false,
        stderr: Some(
            "  File \"script.py\", line 7\n    total = 0\nIndentationError: unexpected indent\n"
                .to_string(),
        ),
    };
    let result = executor
        .execute_script(&script("print('x')"), &headers, &rows, &Vec::new(), &exit)
        .unwrap();
    assert_eq!(result.error, Some("Script execution failed".to_string()));
    match &result.result {
        ResultPayload::Error { message } => {
            assert!(message.starts_with("Python indentation error: "));
            assert!(message.contains("IndentationError: unexpected indent"));
        },
        other => panic!("not an error: {:?}", other),
    }
    assert_eq!(executor.state(&result.execution_id), Some(ExecutionState::Failed));
}

#[test]
fn a_denied_script_is_refused_before_anything_is_registered() {
    let mut executor = ScriptExecutor::new();
    let (headers, rows) = table();
    executor.begin("other".to_string(), 1, 0).unwrap();
    let output = lines(&["{\"type\":\"analysis\",\"summary\":\"never\"}"]);
    for content in [
        "data = open('/etc/passwd').read()",
        "value = eval(input())",
        "import socket\ns = socket.socket()",
        "import subprocess",
    ] {
        let err = executor
            .execute_script(&script(content), &headers, &rows, &output, &ok())
            .unwrap_err();
        assert_eq!(err.class(), FailureClass::SecurityViolation);
    }
    assert_eq!(executor.state("other"), Some(ExecutionState::Running));
    assert_eq!(executor.get_progress("other").unwrap().processed_rows, 0);
}

#[test]
fn a_cancelled_execution_keeps_no_line_and_ends_cancelled() {
    let mut executor = ScriptExecutor::new();
    executor.begin("run".to_string(), 4, 0).unwrap();
    let before = lines(&["{\"type\":\"progress\",\"processed\":1,\"total\":4,\"step\":\"a\"}"]);
    let _ = executor.execute_script_internal("run", &before, &ok(), 0, 1);
    executor.cancel_execution("run").unwrap();
    let after = lines(&[
        "{\"type\":\"progress\",\"processed\":4,\"total\":4,\"step\":\"b\"}",
        "{\"type\":\"analysis\",\"summary\":\"late\"}",
    ]);
    let outcome = executor.execute_script_internal("run", &after, &ok(), 0, 2);
    assert_eq!(outcome.unwrap_err(), ExecutionError::Cancelled);
    assert_eq!(executor.get_progress("run").unwrap().processed_rows, 1);
    assert_eq!(
        executor.complete("run", Err(ExecutionError::Cancelled)),
        Ok(ExecutionState::Cancelled)
    );
    assert_eq!(executor.state("run"), Some(ExecutionState::Cancelled));
}

#[test]
fn a_run_without_result_is_recorded_as_failed() {
    let mut executor = ScriptExecutor::new();
    let (headers, rows) = table();
    let err = executor
        .execute_script(&script("print('x')"), &headers, &rows, &lines(&["hello"]), &ok())
        .unwrap_err();
    assert_eq!(err, ExecutionError::NoResultFound);
    assert_eq!(err.class(), FailureClass::ProtocolFailure);
}

#[test]
fn output_for_an_unknown_execution_changes_nothing() {
    let mut executor = ScriptExecutor::new();
    let output = lines(&[
        "{\"type\":\"progress\",\"processed\":1,\"total\":4,\"step\":\"a\"}",
        "{\"type\":\"error\",\"message\":\"bad\"}",
    ]);
    let result = executor.execute_script_internal("ghost", &output, &ok(), 3, 4).unwrap();
    assert_eq!(result.execution_id, "ghost");
    assert!(matches!(result.result, ResultPayload::Error { .. }));
    assert!(executor.get_progress("ghost").is_none());
}

#[test]
fn a_replayed_run_under_a_given_identifier_and_time() {
    let mut executor = ScriptExecutor::new();
    let (headers, rows) = table();
    let output = lines(&[
        "{\"type\":\"progress\",\"processed\":1,\"total\":2,\"step\":\"half\"}",
        "{\"type\":\"analysis\",\"summary\":\"first\",\"details\":{}}",
        "not json",
        "{\"type\":\"analysis\",\"summary\":\"ok\",\"details\":{}}",
        "{\"type\":\"progress\",\"processed\":2,\"total\":2,\"step\":\"done\"}",
    ]);
    let result = executor
        .execute_script_as(&script("print('x')"), &headers, &rows, &output, &ok(), "run-1".to_string(), 10, 25)
        .unwrap();
    assert_eq!(result.execution_id, "run-1");
    assert_eq!(result.started_at, 10);
    assert_eq!(result.completed_at, Some(25));
    assert_eq!(result.error, None);
    match &result.result {
        ResultPayload::Analysis { summary, .. } => assert_eq!(summary, "ok"),
        other => panic!("not an analysis: {:?}", other),
    }
    assert_eq!(executor.state("run-1"), Some(ExecutionState::Completed));
    let p = executor.get_progress("run-1").unwrap();
    assert_eq!(p.processed_rows, 2);
    assert_eq!(p.current_step, "done");
    assert_eq!(p.last_updated, 25);

    // The identifier is taken now.
    assert_eq!(
        executor.execute_script_as(&script("print('x')"), &headers, &rows, &output, &ok(), "run-1".to_string(), 30, 40),
        Err(ExecutionError::IdInUse)
    );
    // A run without a result fails, and the failure is what is recorded.
    let none = lines(&["hello"]);
    assert_eq!(
        executor.execute_script_as(&script("print('x')"), &headers, &rows, &none, &ok(), "run-2".to_string(), 30, 40),
        Err(ExecutionError::NoResultFound)
    );
    assert_eq!(executor.state("run-2"), Some(ExecutionState::Failed));
    assert_eq!(executor.reap("run-2"), Some(Err(ExecutionError::NoResultFound)));
}

#[test]
fn a_refused_replay_names_the_pattern_and_registers_nothing() {
    let mut executor = ScriptExecutor::new();
    let (headers, rows) = table();
    let output = lines(&["{\"type\":\"analysis\",\"summary\":\"never\"}"]);
    let err = executor
        .execute_script(&script("import subprocess\nopen('x')"), &headers, &rows, &output, &ok())
        .unwrap_err();
    assert_eq!(err, ExecutionError::SecurityViolation { pattern: r"open\s*\(".to_string() });
    let err = executor
        .execute_script_as(&script("import subprocess"), &headers, &rows, &output, &ok(), "r".to_string(), 1, 2)
        .unwrap_err();
    assert_eq!(err, ExecutionError::SecurityViolation { pattern: r"import\s+subprocess".to_string() });
    assert_eq!(executor.state("r"), None);
}

#[test]
fn a_replayed_run_ends_no_earlier_than_it_began() {
    let mut executor = ScriptExecutor::new();
    let (headers, rows) = table();
    let output = lines(&["{\"type\":\"analysis\",\"summary\":\"ok\",\"details\":{}}"]);
    let result =
        executor.execute_script(&script("print('x')"), &headers, &rows, &output, &ok()).unwrap();
    assert!(result.completed_at.unwrap() >= result.started_at);
}
