//! The requests that reach the engine from the user interface, and what the
//! engine answers to them.
//!
//! A request arrives as plain data and is answered from the registry of
//! executions or from the data of the request itself. Receiving a request
//! and sending the answer is the caller's work.

use vstd::prelude::*;
use vstd::string::*;
use crate::ai_script::error::ExecutionError;
use crate::ai_script::executor::{is_terminal, ScriptExecutor};
use crate::ai_script::models::{
    Change, ChangeView, DataChange, DataChangeView, ExecutionResult, ResultPayload,
    ResultPayloadView, Script,
};
use crate::ai_script::progress::ExecutionProgress;
use crate::text::{contains, str_contains};

verus! {

/// Asks what a request in the user's words is for.
#[derive(Debug, Clone, PartialEq, Eq)]
pub struct DetectIntentRequest {
    pub prompt: String,
}

/// Asks for an operation in the user's words on a table.
#[derive(Debug, Clone, PartialEq, Eq)]
pub struct ExecuteAiRequest {
    pub prompt: String,
    pub headers: Vec<String>,
    pub rows: Vec<Vec<String>>,
    /// How many rows the operation takes at most; 10000 where nothing is
    /// said.
    pub max_rows: Option<usize>,
}

/// Asks to apply changes to the table.
#[derive(Debug, Clone, PartialEq, Eq)]
pub struct ApplyChangesRequest {
    pub changes: Vec<DataChange>,
}

/// The table that a script is run on.
#[derive(Debug, Clone, PartialEq, Eq)]
pub struct CsvDataInput {
    pub headers: Vec<String>,
    pub rows: Vec<Vec<String>>,
}

/// Asks to run a script on a table. A script that proposes edits is run
/// only with the user's approval.
#[derive(Debug, PartialEq, Eq)]
pub struct ExecuteScriptRequest {
    pub script: Script,
    pub approval: bool,
    pub csv_data: CsvDataInput,
}

/// What a run produced, with the edits that it proposes set apart in both
/// their forms.
#[derive(Debug, PartialEq, Eq)]
pub struct ExecuteScriptResponse {
    pub execution_id: String,
    pub result: ResultPayload,
    /// The edits in the flat form, where the result holds them.
    pub changes: Option<Vec<DataChange>>,
    /// The edits in the unified form, where the result holds them.
    pub unified_changes: Option<Vec<Change>>,
}

/// Asks for the progress of an execution.
#[derive(Debug, Clone, PartialEq, Eq)]
pub struct GetScriptProgressRequest {
    pub execution_id: String,
}

/// The progress of an execution, and whether the execution is over.
#[derive(Debug, PartialEq, Eq)]
pub struct GetScriptProgressResponse {
    pub progress: ExecutionProgress,
    pub is_completed: bool,
}

/// Asks to cancel an execution.
#[derive(Debug, Clone, PartialEq, Eq)]
pub struct CancelScriptExecutionRequest {
    pub execution_id: String,
}

/// Whether cancellation was requested, in a flag and in words.
#[derive(Debug, Clone, PartialEq, Eq)]
pub struct CancelScriptExecutionResponse {
    pub success: bool,
    pub message: String,
}

/// Whether the history of a conversation was saved, in a flag and in words.
#[derive(Debug, Clone, PartialEq, Eq)]
pub struct SaveChatHistoryResponse {
    pub success: bool,
    pub message: String,
}

/// Asks for the history of the conversation on a file.
#[derive(Debug, Clone, PartialEq, Eq)]
pub struct LoadChatHistoryRequest {
    pub csv_path: String,
}

/// The order in which a column is sorted.
#[derive(Debug, Clone, Copy, PartialEq, Eq, Structural)]
pub enum SortDirection {
    Ascending,
    Descending,
}

/// A column by which the rows are sorted.
#[derive(Debug, Clone, Copy, PartialEq, Eq)]
pub struct SortColumn {
    pub column_index: usize,
    pub direction: SortDirection,
}

/// The columns by which the rows are sorted, the first deciding first.
#[derive(Debug, Clone, PartialEq, Eq)]
pub struct SortState {
    pub columns: Vec<SortColumn>,
}

/// The part of the table that the user interface shows: rows and columns
/// from a start up to, and without, an end.
#[derive(Debug, Clone, Copy, PartialEq, Eq)]
pub struct ViewportRange {
    pub start_row: usize,
    pub end_row: usize,
    pub start_column: usize,
    pub end_column: usize,
}

/// The first of the sort columns from `from` on that a table of `width`
/// columns does not have.
pub open spec fn first_invalid_from(columns: Seq<SortColumn>, width: nat, from: int) -> Option<usize>
    decreases columns.len() - from,
{
    if from < 0 || from >= columns.len() {
        None
    } else if columns[from].column_index >= width {
        Some(columns[from].column_index)
    } else {
        first_invalid_from(columns, width, from + 1)
    }
}

/// The first sort column that a table of `width` columns does not have;
/// nothing where the table can be sorted by all of them.
pub fn invalid_sort_column(state: &SortState, width: usize) -> (r: Option<usize>)
    ensures
        r == first_invalid_from(state.columns@, width as nat, 0),
{
    let mut i: usize = 0;
    while i < state.columns.len()
        invariant
            i <= state.columns.len(),
            first_invalid_from(state.columns@, width as nat, 0) == first_invalid_from(
                state.columns@,
                width as nat,
                i as int,
            ),
        decreases state.columns.len() - i,
    {
        if state.columns[i].column_index >= width {
            return Some(state.columns[i].column_index);
        }
        i += 1;
    }
    None
}

/// How many rows an operation takes where the request names no limit.
pub open spec fn standard_row_limit() -> usize {
    10000
}

/// How many rows of a table of `rows` rows an operation takes under the
/// limit `max_rows`.
pub open spec fn rows_taken(max_rows: Option<usize>, rows: nat) -> nat {
    let limit = match max_rows {
        Some(n) => n,
        None => standard_row_limit(),
    };
    if rows < limit {
        rows
    } else {
        limit as nat
    }
}

/// Whether a request brings no table to work on: no header or no row.
pub fn data_missing(request: &ExecuteAiRequest) -> (b: bool)
    ensures
        b == (request.headers.len() == 0 || request.rows.len() == 0),
{
    request.headers.len() == 0 || request.rows.len() == 0
}

/// How many of its rows the operation of a request takes: all, up to the
/// limit of the request.
pub fn row_limit(request: &ExecuteAiRequest) -> (n: usize)
    ensures
        n == rows_taken(request.max_rows, request.rows.len() as nat),
        n <= request.rows.len(),
{
    let limit: usize = match request.max_rows {
        Some(n) => n,
        None => 10000,
    };
    if request.rows.len() < limit {
        request.rows.len()
    } else {
        limit
    }
}

/// The answer to a request to apply changes: how many changes there are.
pub fn ai_apply_changes(request: &ApplyChangesRequest) -> (count: usize)
    ensures
        count == request.changes.len(),
{
    request.changes.len()
}

/// The answer to a request for progress: the progress of the execution as
/// last reported, and whether the execution is over, which it is once it
/// has ended or has reported all its rows. No answer for an execution that
/// the registry does not hold.
pub fn get_script_progress(executor: &ScriptExecutor, request: &GetScriptProgressRequest) -> (r:
    Result<GetScriptProgressResponse, String>)
    requires
        executor.wf(),
    ensures
        match executor.lookup(request.execution_id@) {
            Some(held) => {
                &&& r is Ok
                &&& r->Ok_0.progress.deep_view() == held.progress
                &&& r->Ok_0.is_completed == (is_terminal(held.state) || held.progress.percent()
                    >= 100)
            },
            None => r is Err && r->Err_0@ == "Execution not found"@,
        },
{
    let id = request.execution_id.as_str();
    match (executor.get_progress(id), executor.state(id)) {
        (Some(progress), Some(state)) => {
            let ended = match state {
                crate::ai_script::models::ExecutionState::Completed => true,
                crate::ai_script::models::ExecutionState::Failed => true,
                crate::ai_script::models::ExecutionState::Cancelled => true,
                _ => false,
            };
            let is_completed = ended || progress.percent() >= 100;
            Ok(GetScriptProgressResponse { progress, is_completed })
        },
        _ => Err(String::from_str("Execution not found")),
    }
}

/// The edits of a payload in the flat form.
pub open spec fn flat_changes(payload: ResultPayloadView) -> Option<Seq<DataChangeView>> {
    match payload {
        ResultPayloadView::Transformation { changes, unified_changes, preview } => changes,
        _ => None,
    }
}

/// The edits of a payload in the unified form.
pub open spec fn unified_changes(payload: ResultPayloadView) -> Option<Seq<ChangeView>> {
    match payload {
        ResultPayloadView::Transformation { changes, unified_changes, preview } => unified_changes,
        _ => None,
    }
}

/// The answer to a request to run a script, once the run has given a
/// result: the identifier of the execution, the payload, and the edits of
/// the payload in each of their forms.
pub fn execute_script_response(result: &ExecutionResult) -> (response: ExecuteScriptResponse)
    ensures
        response.execution_id@ == result.execution_id@,
        response.result.deep_view() == result.result.deep_view(),
        response.changes.deep_view() == flat_changes(result.result.deep_view()),
        response.unified_changes.deep_view() == unified_changes(result.result.deep_view()),
{
    let (changes, unified_changes) = match result.result.duplicate() {
        ResultPayload::Transformation { changes, unified_changes, preview } => (
            changes,
            unified_changes,
        ),
        _ => (None, None),
    };
    ExecuteScriptResponse {
        execution_id: result.execution_id.clone(),
        result: result.result.duplicate(),
        changes,
        unified_changes,
    }
}

/// What the user is told of a run that gave no result, by the words of the
/// failure `message`: that the script was blocked, that its syntax is wrong,
/// that the run was cancelled, that access was denied, and else the message
/// itself.
pub open spec fn failure_text(message: Seq<char>) -> Seq<char> {
    if contains(message, "security"@) || contains(message, "validation"@) {
        "The script contains potentially unsafe operations and was blocked for security reasons."@
    } else if contains(message, "python"@) || contains(message, "syntax"@) {
        "Python syntax error. The generated script may need to be reviewed."@
    } else if contains(message, "timeout"@) || contains(message, "cancelled"@) {
        "Execution was cancelled or timed out."@
    } else if contains(message, "permission"@) || contains(message, "access"@) {
        "Permission denied. The script may be trying to access restricted resources."@
    } else {
        "Script execution failed: "@ + message
    }
}

/// The answer to a request to run a script, where the run gave no result.
pub fn execute_script_failure(e: &ExecutionError) -> (text: String)
    ensures
        text@ == failure_text(e.message_of()),
{
    let message = e.message();
    let m = message.as_str();
    if str_contains(m, "security") || str_contains(m, "validation") {
        String::from_str(
            "The script contains potentially unsafe operations and was blocked for security reasons.",
        )
    } else if str_contains(m, "python") || str_contains(m, "syntax") {
        String::from_str("Python syntax error. The generated script may need to be reviewed.")
    } else if str_contains(m, "timeout") || str_contains(m, "cancelled") {
        String::from_str("Execution was cancelled or timed out.")
    } else if str_contains(m, "permission") || str_contains(m, "access") {
        String::from_str(
            "Permission denied. The script may be trying to access restricted resources.",
        )
    } else {
        let mut text = String::from_str("Script execution failed: ");
        text.append(m);
        text
    }
}

/// What the answer to a request for cancellation says where the request
/// failed with `e`.
pub open spec fn cancel_failure(e: ExecutionError) -> Seq<char> {
    "Failed to cancel execution: "@ + e.message_of()
}

/// The answer to a request for cancellation: the request is recorded for an
/// execution that the registry holds, and the answer says so; for any
/// other, the answer says why not, and nothing changes.
pub fn cancel_script_execution(
    executor: &mut ScriptExecutor,
    request: &CancelScriptExecutionRequest,
) -> (response: CancelScriptExecutionResponse)
    requires
        old(executor).wf(),
    ensures
        final(executor).wf(),
        final(executor).denied() == old(executor).denied(),
        final(executor).same_but(old(executor), request.execution_id@),
        match old(executor).lookup(request.execution_id@) {
            Some(held) => {
                &&& response.success
                &&& response.message@ == "Execution cancelled"@
                &&& final(executor).lookup(request.execution_id@) == Some(held.cancel_requested())
            },
            None => {
                &&& !response.success
                &&& response.message@ == cancel_failure(ExecutionError::NotFound)
                &&& final(executor).lookup(request.execution_id@) is None
            },
        },
{
    match executor.cancel_execution(request.execution_id.as_str()) {
        Ok(()) => CancelScriptExecutionResponse {
            success: true,
            message: String::from_str("Execution cancelled"),
        },
        Err(e) => {
            let mut message = String::from_str("Failed to cancel execution: ");
            message.append(e.message().as_str());
            CancelScriptExecutionResponse { success: false, message }
        },
    }
}

} // verus!
