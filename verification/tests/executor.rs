use csv_light_editor::ai_script::error::{ExecutionError, FailureClass};
use csv_light_editor::ai_script::executor::{advance, ScriptExecutor, Transition};
use csv_light_editor::ai_script::models::{
    approval_missing, requires_approval, ExecutionResult, ExecutionState, ResultPayload, Script,
    ScriptType,
};
use csv_light_editor::ai_script::protocol::ProgressEvent;
use csv_light_editor::ai_script::runner::{LineAction, ProcessExit, ProcessRun};
use csv_light_editor::json::Json;

fn script(content: &str) -> Script {
    Script::new(content.to_string(), ScriptType::Analysis, "count the rows".to_string())
}

fn event(processed: u64, total: u64, step: &str) -> ProgressEvent {
    ProgressEvent { processed, total, step: step.to_string() }
}

fn analysis(id: &str) -> ExecutionResult {
    ExecutionResult {
        execution_id: id.to_string(),
        started_at: 1,
        completed_at: Some(2),
        result: ResultPayload::Analysis { summary: "ok".to_string(), details: Json::empty_object() },
        error: None,
    }
}

fn failure(id: &str) -> ExecutionResult {
    ExecutionResult {
        execution_id: id.to_string(),
        started_at: 1,
        completed_at: Some(2),
        result: ResultPayload::Error { message: "boom".to_string() },
        error: Some("Script execution failed".to_string()),
    }
}

#[test]
fn a_new_script_is_pending() {
    let s = script("print(1)");
    assert_eq!(s.content, "print(1)");
    assert_eq!(s.script_type, ScriptType::Analysis);
    assert_eq!(s.user_prompt, "count the rows");
    assert_eq!(s.execution_state, ExecutionState::Pending);
    assert!(s.execution_result.is_none());
    assert_ne!(s.id, script("print(1)").id);
    assert_eq!(s.id.len(), 36);
}

#[test]
fn the_life_cycle_has_only_its_transitions() {
    let (pending, running) = (ExecutionState::Pending, ExecutionState::Running);
    let (completed, failed, cancelled) =
        (ExecutionState::Completed, ExecutionState::Failed, ExecutionState::Cancelled);
    assert_eq!(advance(pending, Transition::Start), Some(running));
    assert_eq!(advance(pending, Transition::Reject), Some(failed));
    assert_eq!(advance(running, Transition::Succeed), Some(completed));
    assert_eq!(advance(running, Transition::Fail), Some(failed));
    assert_eq!(advance(running, Transition::Cancel), Some(cancelled));
    assert_eq!(advance(pending, Transition::Succeed), None);
    assert_eq!(advance(pending, Transition::Cancel), None);
    assert_eq!(advance(running, Transition::Start), None);
    assert_eq!(advance(running, Transition::Reject), None);
    for state in [completed, failed, cancelled] {
        for t in [
            Transition::Start,
            Transition::Reject,
            Transition::Succeed,
            Transition::Fail,
            Transition::Cancel,
        ] {
            assert_eq!(advance(state, t), None);
        }
    }
}

#[test]
fn a_denied_script_is_never_registered() {
    let mut executor = ScriptExecutor::new();
    let denied = ["f = open('/etc/passwd')", "x = eval('1+1')", "import socket"];
    for content in denied {
        let err = executor.submit(&script(content), 3).unwrap_err();
        assert_eq!(err.class(), FailureClass::SecurityViolation);
        assert!(executor.validate(&script(content)).is_err());
    }
    let id = executor.submit(&script("print('fine')"), 3).unwrap();
    assert_eq!(executor.state(&id), Some(ExecutionState::Running));
    assert!(executor.reap(&id).is_none());
    assert_eq!(executor.complete(&id, Err(ExecutionError::Cancelled)), Ok(ExecutionState::Cancelled));
    assert!(executor.reap(&id).is_some());
    assert_eq!(executor.state(&id), None);
}

#[test]
fn submit_registers_a_running_execution() {
    let mut executor = ScriptExecutor::default();
    let id = executor.submit(&script("print(1)"), 7).unwrap();
    let p = executor.get_progress(&id).unwrap();
    assert_eq!(p.execution_id, id);
    assert_eq!(p.total_rows, 7);
    assert_eq!(p.processed_rows, 0);
    assert_eq!(p.current_step, "Initializing");
    assert_eq!(p.percent(), 0);
    assert_eq!(executor.state(&id), Some(ExecutionState::Running));
    assert!(!executor.is_cancelled(&id));
    let other = executor.submit(&script("print(1)"), 7).unwrap();
    assert_ne!(id, other);
}

#[test]
fn begin_refuses_an_identifier_in_use() {
    let mut executor = ScriptExecutor::new();
    assert_eq!(executor.begin("a".to_string(), 2, 10), Ok(()));
    assert!(executor.report_progress("a", &event(1, 2, "half"), 11));
    let err = executor.begin("a".to_string(), 9, 20).unwrap_err();
    assert_eq!(err, ExecutionError::IdInUse);
    assert_eq!(err.class(), FailureClass::Conflict);
    let p = executor.get_progress("a").unwrap();
    assert_eq!((p.total_rows, p.processed_rows, p.started_at), (2, 1, 10));
}

#[test]
fn polling_follows_the_progress_events() {
    let mut executor = ScriptExecutor::new();
    executor.begin("a".to_string(), 2, 10).unwrap();
    assert!(executor.report_progress("a", &event(1, 2, "first"), 11));
    let p = executor.get_progress("a").unwrap();
    assert_eq!(p.percent(), 50);
    assert_eq!(p.current_step, "first");
    assert_eq!(p.last_updated, 11);
    assert!(executor.report_progress("a", &event(2, 2, "second"), 12));
    assert_eq!(executor.get_progress("a").unwrap().percent(), 100);
    assert!(!executor.report_progress("missing", &event(2, 2, "second"), 12));
}

#[test]
fn executions_do_not_interfere() {
    let mut executor = ScriptExecutor::new();
    executor.begin("a".to_string(), 4, 10).unwrap();
    executor.begin("b".to_string(), 10, 20).unwrap();
    executor.report_progress("a", &event(1, 4, "a1"), 30);
    executor.report_progress("b", &event(5, 10, "b1"), 31);
    executor.report_progress("a", &event(2, 4, "a2"), 32);
    let a = executor.get_progress("a").unwrap();
    let b = executor.get_progress("b").unwrap();
    assert_eq!((a.execution_id.as_str(), a.processed_rows, a.current_step.as_str()), ("a", 2, "a2"));
    assert_eq!((b.execution_id.as_str(), b.processed_rows, b.current_step.as_str()), ("b", 5, "b1"));
    executor.cancel_execution("a").unwrap();
    assert!(executor.is_cancelled("a"));
    assert!(!executor.is_cancelled("b"));
    executor.complete("a", Err(ExecutionError::Cancelled)).unwrap();
    assert_eq!(executor.state("b"), Some(ExecutionState::Running));
    assert!(executor.reap("a").is_some());
    let b = executor.get_progress("b").unwrap();
    assert_eq!((b.processed_rows, b.started_at, b.last_updated), (5, 20, 31));
    assert!(executor.get_progress("a").is_none());
}

#[test]
fn cancel_of_an_unknown_execution_is_not_found() {
    let mut executor = ScriptExecutor::new();
    let err = executor.cancel_execution("nope").unwrap_err();
    assert_eq!(err, ExecutionError::NotFound);
    assert_eq!(err.message(), "Execution not found");
    assert_eq!(err.class(), FailureClass::NotFound);
    assert!(executor.get_progress("nope").is_none());
    assert!(!executor.is_cancelled("nope"));
    assert_eq!(executor.state("nope"), None);
    assert!(executor.reap("nope").is_none());
    assert_eq!(executor.complete("nope", Ok(analysis("nope"))), Err(ExecutionError::NotFound));
}

#[test]
fn an_ended_execution_stays_until_it_is_reaped() {
    let mut executor = ScriptExecutor::new();
    executor.begin("a".to_string(), 2, 10).unwrap();
    executor.report_progress("a", &event(2, 2, "done"), 11);
    assert_eq!(executor.complete("a", Ok(analysis("a"))), Ok(ExecutionState::Completed));
    assert_eq!(executor.state("a"), Some(ExecutionState::Completed));
    assert_eq!(executor.get_progress("a").unwrap().percent(), 100);
    assert!(!executor.report_progress("b", &event(0, 2, "x"), 12));
    assert!(executor.report_progress("a", &event(0, 2, "late"), 12));
    assert_eq!(executor.get_progress("a").unwrap().processed_rows, 2);
    assert_eq!(executor.cancel_execution("a"), Ok(()));
    assert!(!executor.is_cancelled("a"));
    assert_eq!(executor.complete("a", Ok(failure("a"))), Err(ExecutionError::AlreadyEnded));
    match executor.reap("a") {
        Some(Ok(result)) => {
            assert_eq!(result.execution_id, "a");
            assert!(matches!(result.result, ResultPayload::Analysis { .. }));
        },
        other => panic!("unexpected outcome: {:?}", other),
    }
    assert_eq!(executor.state("a"), None);
    assert!(executor.reap("a").is_none());
    assert_eq!(executor.begin("a".to_string(), 1, 1), Ok(()));
}

#[test]
fn the_state_says_how_the_run_ended() {
    let mut executor = ScriptExecutor::new();
    for id in ["ok", "payload-error", "cancelled", "no-result", "spawn"] {
        executor.begin(id.to_string(), 1, 0).unwrap();
    }
    assert_eq!(executor.complete("ok", Ok(analysis("ok"))), Ok(ExecutionState::Completed));
    assert_eq!(
        executor.complete("payload-error", Ok(failure("payload-error"))),
        Ok(ExecutionState::Failed)
    );
    assert_eq!(
        executor.complete("cancelled", Err(ExecutionError::Cancelled)),
        Ok(ExecutionState::Cancelled)
    );
    assert_eq!(
        executor.complete("no-result", Err(ExecutionError::NoResultFound)),
        Ok(ExecutionState::Failed)
    );
    assert_eq!(
        executor.complete("spawn", Err(ExecutionError::SpawnFailure { reason: "no python".to_string() })),
        Ok(ExecutionState::Failed)
    );
    match executor.reap("cancelled") {
        Some(Err(e)) => assert_eq!(e, ExecutionError::Cancelled),
        other => panic!("unexpected outcome: {:?}", other),
    }
    match executor.reap("payload-error") {
        Some(Ok(result)) => assert_eq!(result.error, Some("Script execution failed".to_string())),
        other => panic!("unexpected outcome: {:?}", other),
    }
}

#[test]
fn error_messages_and_classes() {
    let spawn = ExecutionError::SpawnFailure { reason: "no such file".to_string() };
    assert_eq!(spawn.message(), "Failed to start Python process: no such file");
    assert_eq!(spawn.class(), FailureClass::SpawnFailure);
    assert_eq!(ExecutionError::Cancelled.class(), FailureClass::Cancelled);
    assert_eq!(ExecutionError::NoResultFound.class(), FailureClass::ProtocolFailure);
    assert_eq!(ExecutionError::InputSerialization.class(), FailureClass::ProtocolFailure);
    assert_eq!(ExecutionError::InputSerialization.message(), "Failed to serialize CSV data");
    assert_eq!(
        ExecutionError::Io { reason: "broken pipe".to_string() }.message(),
        "Script execution failed: broken pipe"
    );
    assert_eq!(ExecutionError::IdInUse.message(), "Execution identifier is in use");
    assert_eq!(ExecutionError::AlreadyEnded.message(), "Execution has already ended");
}

#[test]
fn a_refusal_names_the_first_denied_pattern() {
    let mut executor = ScriptExecutor::new();
    let denied = script("x = 1\nimport sys\nresult = eval('2')\n");
    let named = ExecutionError::SecurityViolation { pattern: r"eval\s*\(".to_string() };
    assert_eq!(executor.validate(&denied), Err(named.clone()));
    assert_eq!(executor.submit(&denied, 1), Err(named.clone()));
    assert_eq!(executor.submit_as(&denied, "a".to_string(), 1, 5), Err(named));
    assert_eq!(executor.state("a"), None);
}

#[test]
fn submission_under_a_given_identifier() {
    let mut executor = ScriptExecutor::new();
    assert_eq!(executor.submit_as(&script("print(1)"), "a".to_string(), 4, 1_000), Ok(()));
    let p = executor.get_progress("a").unwrap();
    assert_eq!(p.total_rows, 4);
    assert_eq!(p.started_at, 1_000);
    assert_eq!(executor.state("a"), Some(ExecutionState::Running));
    assert_eq!(
        executor.submit_as(&script("print(2)"), "a".to_string(), 9, 2_000),
        Err(ExecutionError::IdInUse)
    );
    assert_eq!(executor.get_progress("a").unwrap().total_rows, 4);
    // A denied script is refused for what it holds, whatever the identifier.
    assert_eq!(
        executor.submit_as(&script("import os"), "a".to_string(), 9, 2_000).unwrap_err().class(),
        FailureClass::SecurityViolation
    );
}

#[test]
fn approval_is_asked_for_transformations_only() {
    assert!(requires_approval(ScriptType::Transformation));
    assert!(!requires_approval(ScriptType::Analysis));
    assert!(approval_missing(ScriptType::Transformation, false));
    assert!(!approval_missing(ScriptType::Transformation, true));
    assert!(!approval_missing(ScriptType::Analysis, false));
    assert!(!approval_missing(ScriptType::Analysis, true));
}

#[test]
fn the_registry_decides_on_each_line_of_a_run() {
    let mut executor = ScriptExecutor::new();
    executor.begin("a".to_string(), 4, 0).unwrap();
    executor.begin("b".to_string(), 4, 0).unwrap();
    let mut run = ProcessRun::start("a".to_string(), 0);
    let progress = "{\"type\":\"progress\",\"processed\":2,\"total\":4,\"step\":\"half\"}";
    assert_eq!(
        executor.on_line(&mut run, progress.to_string(), 7),
        LineAction::Report(event(2, 4, "half"))
    );
    let p = executor.get_progress("a").unwrap();
    assert_eq!((p.processed_rows, p.current_step.as_str(), p.last_updated), (2, "half", 7));
    assert_eq!(executor.get_progress("b").unwrap().processed_rows, 0);
    assert_eq!(executor.on_wait(&mut run), LineAction::Continue);
    assert_eq!(executor.on_line(&mut run, "plain".to_string(), 8), LineAction::Continue);
    assert_eq!(run.output_lines, vec!["plain".to_string()]);

    // Cancellation of the other execution does not reach this run.
    executor.cancel_execution("b").unwrap();
    assert_eq!(executor.on_wait(&mut run), LineAction::Continue);
    executor.cancel_execution("a").unwrap();
    let late = "{\"type\":\"progress\",\"processed\":4,\"total\":4,\"step\":\"all\"}";
    assert_eq!(executor.on_line(&mut run, late.to_string(), 9), LineAction::Kill);
    assert!(run.cancelled);
    assert_eq!(executor.get_progress("a").unwrap().processed_rows, 2);
    let outcome = run.finish(&ProcessExit { success: true, stderr: None }, 10);
    assert_eq!(outcome, Err(ExecutionError::Cancelled));
    assert_eq!(executor.complete("a", outcome), Ok(ExecutionState::Cancelled));
}

#[test]
fn a_silent_run_is_killed_once_cancellation_is_requested() {
    let mut executor = ScriptExecutor::new();
    executor.begin("a".to_string(), 4, 0).unwrap();
    let mut run = ProcessRun::start("a".to_string(), 0);
    assert_eq!(executor.on_wait(&mut run), LineAction::Continue);
    executor.cancel_execution("a").unwrap();
    assert_eq!(executor.on_wait(&mut run), LineAction::Kill);
    assert_eq!(
        run.finish(&ProcessExit { success: false, stderr: None }, 3),
        Err(ExecutionError::Cancelled)
    );
    // A run of an execution that the registry does not hold is not cancelled.
    let mut stray = ProcessRun::start("zz".to_string(), 0);
    assert_eq!(executor.on_wait(&mut stray), LineAction::Continue);
}
