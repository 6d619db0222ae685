//! The data that the execution engine exchanges with its callers.

use vstd::prelude::*;
use crate::ai_script::host::{fresh_id, now_millis};
use crate::json::{Json, JsonView};

verus! {

/// What a generated script is for.
#[derive(Clone, Copy, Debug, PartialEq, Eq, Structural)]
pub enum ScriptType {
    /// The script reads the table and reports on it.
    Analysis,
    /// The script proposes edits to the table.
    Transformation,
}

/// Whether a script of this kind is run only with the user's approval: one
/// that proposes edits is, one that only reads is not.
pub fn requires_approval(script_type: ScriptType) -> (b: bool)
    ensures
        b == (script_type == ScriptType::Transformation),
{
    match script_type {
        ScriptType::Transformation => true,
        ScriptType::Analysis => false,
    }
}

/// Whether a script of this kind may not be run as things stand: it needs
/// the user's approval, and `approval` says that there is none.
pub fn approval_missing(script_type: ScriptType, approval: bool) -> (b: bool)
    ensures
        b == (script_type == ScriptType::Transformation && !approval),
{
    requires_approval(script_type) && !approval
}

/// Where an execution stands.
#[derive(Clone, Copy, Debug, PartialEq, Eq, Structural)]
pub enum ExecutionState {
    Pending,
    Running,
    Completed,
    Failed,
    Cancelled,
}

/// An edit of one cell, in the flat form that older scripts emit.
#[derive(Clone, Debug, PartialEq, Eq)]
pub struct DataChange {
    pub row_index: usize,
    pub column_index: usize,
    pub old_value: String,
    pub new_value: String,
}

/// The mathematical value of a [`DataChange`].
pub struct DataChangeView {
    pub row_index: usize,
    pub column_index: usize,
    pub old_value: Seq<char>,
    pub new_value: Seq<char>,
}

impl DeepView for DataChange {
    type V = DataChangeView;

    open spec fn deep_view(&self) -> DataChangeView {
        DataChangeView {
            row_index: self.row_index,
            column_index: self.column_index,
            old_value: self.old_value@,
            new_value: self.new_value@,
        }
    }
}

/// The side of a column on which a new column is placed.
#[derive(Clone, Copy, Debug, PartialEq, Eq, Structural)]
pub enum ColumnPosition {
    Before,
    After,
}

/// The side of a row on which a new row is placed.
#[derive(Clone, Copy, Debug, PartialEq, Eq, Structural)]
pub enum RowPosition {
    Before,
    After,
}

/// An edit of the table: of a cell, a column or a row. Each variant carries
/// what is needed to replay the edit against the original table.
#[derive(Clone, Debug, PartialEq, Eq)]
#[allow(inconsistent_fields)]
pub enum Change {
    Cell { row_index: usize, column_index: usize, old_value: String, new_value: String },
    AddColumn {
        column_index: usize,
        column_name: String,
        position: ColumnPosition,
        default_value: Option<String>,
    },
    RemoveColumn { column_index: usize, column_name: String },
    RenameColumn { column_index: usize, old_name: String, new_name: String },
    AddRow { row_index: usize, position: RowPosition, row_data: Option<Vec<String>> },
    RemoveRow { row_index: usize },
}

/// The mathematical value of a [`Change`].
#[allow(inconsistent_fields)]
pub enum ChangeView {
    Cell { row_index: usize, column_index: usize, old_value: Seq<char>, new_value: Seq<char> },
    AddColumn {
        column_index: usize,
        column_name: Seq<char>,
        position: ColumnPosition,
        default_value: Option<Seq<char>>,
    },
    RemoveColumn { column_index: usize, column_name: Seq<char> },
    RenameColumn { column_index: usize, old_name: Seq<char>, new_name: Seq<char> },
    AddRow { row_index: usize, position: RowPosition, row_data: Option<Seq<Seq<char>>> },
    RemoveRow { row_index: usize },
}

impl DeepView for Change {
    type V = ChangeView;

    open spec fn deep_view(&self) -> ChangeView {
        match self {
            Change::Cell { row_index, column_index, old_value, new_value } => ChangeView::Cell {
                row_index: *row_index,
                column_index: *column_index,
                old_value: old_value@,
                new_value: new_value@,
            },
            Change::AddColumn {
                column_index,
                column_name,
                position,
                default_value,
            } => ChangeView::AddColumn {
                column_index: *column_index,
                column_name: column_name@,
                position: *position,
                default_value: default_value.deep_view(),
            },
            Change::RemoveColumn { column_index, column_name } => ChangeView::RemoveColumn {
                column_index: *column_index,
                column_name: column_name@,
            },
            Change::RenameColumn { column_index, old_name, new_name } => ChangeView::RenameColumn {
                column_index: *column_index,
                old_name: old_name@,
                new_name: new_name@,
            },
            Change::AddRow { row_index, position, row_data } => ChangeView::AddRow {
                row_index: *row_index,
                position: *position,
                row_data: row_data.deep_view(),
            },
            Change::RemoveRow { row_index } => ChangeView::RemoveRow { row_index: *row_index },
        }
    }
}

/// One changed cell as shown to the user before the edit is applied.
#[derive(Clone, Debug, PartialEq, Eq)]
pub struct ChangePreview {
    pub row_index: usize,
    pub column_index: usize,
    pub column_name: String,
    pub old_value: String,
    pub new_value: String,
}

/// The mathematical value of a [`ChangePreview`].
pub struct ChangePreviewView {
    pub row_index: usize,
    pub column_index: usize,
    pub column_name: Seq<char>,
    pub old_value: Seq<char>,
    pub new_value: Seq<char>,
}

impl DeepView for ChangePreview {
    type V = ChangePreviewView;

    open spec fn deep_view(&self) -> ChangePreviewView {
        ChangePreviewView {
            row_index: self.row_index,
            column_index: self.column_index,
            column_name: self.column_name@,
            old_value: self.old_value@,
            new_value: self.new_value@,
        }
    }
}

/// What a run produced.
#[derive(Debug, PartialEq, Eq)]
pub enum ResultPayload {
    /// The report of an analysis.
    Analysis { summary: String, details: Json },
    /// The edits that a transformation proposes, in the flat form, in the
    /// unified form, or in both.
    Transformation {
        changes: Option<Vec<DataChange>>,
        unified_changes: Option<Vec<Change>>,
        preview: Vec<ChangePreview>,
    },
    /// The failure that the script or the interpreter reported.
    Error { message: String },
}

/// The mathematical value of a [`ResultPayload`].
pub enum ResultPayloadView {
    Analysis { summary: Seq<char>, details: JsonView },
    Transformation {
        changes: Option<Seq<DataChangeView>>,
        unified_changes: Option<Seq<ChangeView>>,
        preview: Seq<ChangePreviewView>,
    },
    Error { message: Seq<char> },
}

impl DeepView for ResultPayload {
    type V = ResultPayloadView;

    open spec fn deep_view(&self) -> ResultPayloadView {
        match self {
            ResultPayload::Analysis { summary, details } => ResultPayloadView::Analysis {
                summary: summary@,
                details: details@,
            },
            ResultPayload::Transformation {
                changes,
                unified_changes,
                preview,
            } => ResultPayloadView::Transformation {
                changes: changes.deep_view(),
                unified_changes: unified_changes.deep_view(),
                preview: preview.deep_view(),
            },
            ResultPayload::Error { message } => ResultPayloadView::Error { message: message@ },
        }
    }
}

/// The outcome of one execution. Times are milliseconds since the Unix epoch.
#[derive(Debug, PartialEq, Eq)]
pub struct ExecutionResult {
    pub execution_id: String,
    pub started_at: i64,
    pub completed_at: Option<i64>,
    pub result: ResultPayload,
    pub error: Option<String>,
}

/// The mathematical value of an [`ExecutionResult`].
pub struct ExecutionResultView {
    pub execution_id: Seq<char>,
    pub started_at: i64,
    pub completed_at: Option<i64>,
    pub result: ResultPayloadView,
    pub error: Option<Seq<char>>,
}

impl DeepView for ExecutionResult {
    type V = ExecutionResultView;

    open spec fn deep_view(&self) -> ExecutionResultView {
        ExecutionResultView {
            execution_id: self.execution_id@,
            started_at: self.started_at,
            completed_at: self.completed_at,
            result: self.result.deep_view(),
            error: self.error.deep_view(),
        }
    }
}

/// What is known of one column of the table.
#[derive(Clone, Debug, PartialEq, Eq)]
pub struct ColumnInfo {
    pub column_index: usize,
    pub column_name: String,
    /// The detected type: "integer", "float", "date", "datetime", "text".
    pub detected_type: String,
    /// For dates and times, the format of the values.
    pub format: Option<String>,
    /// The first few values that are not empty.
    pub sample_values: Vec<String>,
}

/// A rectangle of selected cells.
#[derive(Clone, Copy, Debug, PartialEq, Eq, Structural)]
pub struct SelectionRange {
    pub start_row: usize,
    pub end_row: usize,
    pub start_column: usize,
    pub end_column: usize,
}

/// What a script is generated for: the table and the state of its view.
#[derive(Debug, PartialEq, Eq)]
pub struct ExecutionContext {
    pub csv_path: Option<String>,
    pub headers: Vec<String>,
    pub row_count: usize,
    pub selected_range: Option<SelectionRange>,
    pub filter_state: Option<Json>,
    pub sort_state: Option<Json>,
    pub column_info: Option<Vec<ColumnInfo>>,
}

/// A generated script. Its text is never changed after it was made.
#[derive(Debug, PartialEq, Eq)]
pub struct Script {
    pub id: String,
    pub content: String,
    pub script_type: ScriptType,
    /// Milliseconds since the Unix epoch.
    pub generated_at: i64,
    pub user_prompt: String,
    pub execution_state: ExecutionState,
    pub execution_result: Option<ExecutionResult>,
}

impl Script {
    /// A script that has not run yet, with a fresh identifier and the
    /// current time.
    pub fn new(content: String, script_type: ScriptType, user_prompt: String) -> (script: Script)
        ensures
            script.content == content,
            script.script_type == script_type,
            script.user_prompt == user_prompt,
            script.execution_state == ExecutionState::Pending,
            script.execution_result is None,
    {
        Script {
            id: fresh_id(),
            content,
            script_type,
            generated_at: now_millis(),
            user_prompt,
            execution_state: ExecutionState::Pending,
            execution_result: None,
        }
    }
}

impl DataChange {
    /// A copy of the change.
    pub fn duplicate(&self) -> (copy: DataChange)
        ensures
            copy.deep_view() == self.deep_view(),
    {
        DataChange {
            row_index: self.row_index,
            column_index: self.column_index,
            old_value: self.old_value.clone(),
            new_value: self.new_value.clone(),
        }
    }
}

impl ChangePreview {
    /// A copy of the preview.
    pub fn duplicate(&self) -> (copy: ChangePreview)
        ensures
            copy.deep_view() == self.deep_view(),
    {
        ChangePreview {
            row_index: self.row_index,
            column_index: self.column_index,
            column_name: self.column_name.clone(),
            old_value: self.old_value.clone(),
            new_value: self.new_value.clone(),
        }
    }
}

/// A copy of an optional string.
pub fn copy_optional(text: &Option<String>) -> (copy: Option<String>)
    ensures
        copy.deep_view() == text.deep_view(),
{
    match text {
        Some(t) => Some(t.clone()),
        None => None,
    }
}

impl Change {
    /// A copy of the change.
    pub fn duplicate(&self) -> (copy: Change)
        ensures
            copy.deep_view() == self.deep_view(),
    {
        match self {
            Change::Cell { row_index, column_index, old_value, new_value } => Change::Cell {
                row_index: *row_index,
                column_index: *column_index,
                old_value: old_value.clone(),
                new_value: new_value.clone(),
            },
            Change::AddColumn { column_index, column_name, position, default_value } => {
                Change::AddColumn {
                    column_index: *column_index,
                    column_name: column_name.clone(),
                    position: *position,
                    default_value: copy_optional(default_value),
                }
            },
            Change::RemoveColumn { column_index, column_name } => Change::RemoveColumn {
                column_index: *column_index,
                column_name: column_name.clone(),
            },
            Change::RenameColumn { column_index, old_name, new_name } => Change::RenameColumn {
                column_index: *column_index,
                old_name: old_name.clone(),
                new_name: new_name.clone(),
            },
            Change::AddRow { row_index, position, row_data } => {
                let data = match row_data {
                    Some(cells) => {
                        let copy = cells.clone();
                        assert(copy.deep_view() =~= cells.deep_view());
                        Some(copy)
                    },
                    None => None,
                };
                Change::AddRow { row_index: *row_index, position: *position, row_data: data }
            },
            Change::RemoveRow { row_index } => Change::RemoveRow { row_index: *row_index },
        }
    }
}

impl ResultPayload {
    /// A copy of the payload.
    pub fn duplicate(&self) -> (copy: ResultPayload)
        ensures
            copy.deep_view() == self.deep_view(),
    {
        match self {
            ResultPayload::Analysis { summary, details } => ResultPayload::Analysis {
                summary: summary.clone(),
                details: details.duplicate(),
            },
            ResultPayload::Transformation { changes, unified_changes, preview } => {
                let changes_copy = match changes {
                    Some(list) => {
                        let mut out: Vec<DataChange> = Vec::new();
                        let mut i: usize = 0;
                        while i < list.len()
                            invariant
                                i <= list.len(),
                                out.len() == i,
                                forall|k: int|
                                    0 <= k < i ==> (#[trigger] out[k]).deep_view()
                                        == list[k].deep_view(),
                            decreases list.len() - i,
                        {
                            out.push(list[i].duplicate());
                            i += 1;
                        }
                        assert(out.deep_view() =~= list.deep_view());
                        Some(out)
                    },
                    None => None,
                };
                let unified_copy = match unified_changes {
                    Some(list) => {
                        let mut out: Vec<Change> = Vec::new();
                        let mut i: usize = 0;
                        while i < list.len()
                            invariant
                                i <= list.len(),
                                out.len() == i,
                                forall|k: int|
                                    0 <= k < i ==> (#[trigger] out[k]).deep_view()
                                        == list[k].deep_view(),
                            decreases list.len() - i,
                        {
                            out.push(list[i].duplicate());
                            i += 1;
                        }
                        assert(out.deep_view() =~= list.deep_view());
                        Some(out)
                    },
                    None => None,
                };
                let mut preview_copy: Vec<ChangePreview> = Vec::new();
                let mut i: usize = 0;
                while i < preview.len()
                    invariant
                        i <= preview.len(),
                        preview_copy.len() == i,
                        forall|k: int|
                            0 <= k < i ==> (#[trigger] preview_copy[k]).deep_view()
                                == preview[k].deep_view(),
                    decreases preview.len() - i,
                {
                    preview_copy.push(preview[i].duplicate());
                    i += 1;
                }
                assert(preview_copy.deep_view() =~= preview.deep_view());
                ResultPayload::Transformation {
                    changes: changes_copy,
                    unified_changes: unified_copy,
                    preview: preview_copy,
                }
            },
            ResultPayload::Error { message } => ResultPayload::Error { message: message.clone() },
        }
    }
}

impl ExecutionResult {
    /// A copy of the result.
    pub fn duplicate(&self) -> (copy: ExecutionResult)
        ensures
            copy.deep_view() == self.deep_view(),
    {
        ExecutionResult {
            execution_id: self.execution_id.clone(),
            started_at: self.started_at,
            completed_at: self.completed_at,
            result: self.result.duplicate(),
            error: copy_optional(&self.error),
        }
    }
}

} // verus!
