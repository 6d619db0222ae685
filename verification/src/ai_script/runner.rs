//! The decisions of one run of the child process.
//!
//! Starting the interpreter, writing to it and reading from it is the
//! caller's work. What to do with each line that arrives, and what the run
//! amounts to once the process has ended, is decided here: the caller hands
//! over each line together with the cancellation flag as it stands, performs
//! the action that comes back, and at the end hands over how the process
//! exited.
//!
//! Cancellation is looked at when a line arrives. A child that prints
//! nothing gives no such occasion, so the caller may also hand over the flag
//! after it has waited for a line in vain: a run is then cancelled without a
//! line.

use vstd::prelude::*;
use vstd::string::*;
use crate::ai_script::diagnosis::{
    diagnose, diagnosed_detail, diagnosed_kind, diagnosed_message, rule_table, Diagnosis,
};
use crate::text::opt_view;
use crate::ai_script::error::ExecutionError;
use crate::ai_script::interpreter::{parse_result, parsed_result};
use crate::ai_script::models::{
    ExecutionResult, ExecutionResultView, ResultPayload, ResultPayloadView,
};
use crate::ai_script::protocol::{
    classify_line, find_result_line, is_candidate, last_candidate, line_kind, result_line,
    OutputLine, OutputLineView, ProgressEvent, ProgressEventView,
};
use crate::text::lines_of;

verus! {

/// What the caller does after it has handed over a line.
#[derive(Debug, PartialEq, Eq)]
pub enum LineAction {
    /// Kill the child process and stop reading: the run was cancelled.
    Kill,
    /// Record the progress that the line reports, and read on.
    Report(ProgressEvent),
    /// Read on.
    Continue,
}

/// The mathematical value of a [`LineAction`].
pub enum LineActionView {
    Kill,
    Report(ProgressEventView),
    Continue,
}

impl DeepView for LineAction {
    type V = LineActionView;

    open spec fn deep_view(&self) -> LineActionView {
        match self {
            LineAction::Kill => LineActionView::Kill,
            LineAction::Report(event) => LineActionView::Report(event.deep_view()),
            LineAction::Continue => LineActionView::Continue,
        }
    }
}

/// How the child process ended.
#[derive(Clone, Debug, PartialEq, Eq)]
pub struct ProcessExit {
    /// Whether the exit code was 0.
    pub success: bool,
    /// What the process wrote to standard error, where it could be read.
    pub stderr: Option<String>,
}

/// One run of the child process, as far as its output has been read.
#[derive(Debug)]
pub struct ProcessRun {
    pub execution_id: String,
    /// Milliseconds since the Unix epoch.
    pub started_at: i64,
    /// The lines read so far that are no progress events, in their order.
    pub output_lines: Vec<String>,
    /// Whether the run was cancelled.
    pub cancelled: bool,
}

/// The mathematical value of a [`ProcessRun`].
pub struct ProcessRunView {
    pub execution_id: Seq<char>,
    pub started_at: i64,
    pub output_lines: Seq<Seq<char>>,
    pub cancelled: bool,
}

impl DeepView for ProcessRun {
    type V = ProcessRunView;

    open spec fn deep_view(&self) -> ProcessRunView {
        ProcessRunView {
            execution_id: self.execution_id@,
            started_at: self.started_at,
            output_lines: self.output_lines.deep_view(),
            cancelled: self.cancelled,
        }
    }
}

/// The action for a line of the kind `kind` while the run is not cancelled.
pub open spec fn action_for(kind: OutputLineView) -> LineActionView {
    match kind {
        OutputLineView::Progress(Some(event)) => LineActionView::Report(event),
        _ => LineActionView::Continue,
    }
}

/// The message of a failed run of which no error output could be read.
pub open spec fn unread_failure() -> Seq<char> {
    "Script execution failed. Please check the generated script for errors."@
}

/// The payload of a run that ended with a non-zero exit code.
pub open spec fn failure_payload(stderr: Option<Seq<char>>) -> ResultPayloadView {
    match stderr {
        Some(text) => ResultPayloadView::Error {
            message: diagnosed_message(rule_table(), lines_of(text)),
        },
        None => ResultPayloadView::Error { message: unread_failure() },
    }
}

impl ProcessRunView {
    /// The run after the line `line` arrived while the cancellation flag
    /// stood at `cancel`.
    pub open spec fn after_line(self, line: Seq<char>, cancel: bool) -> ProcessRunView {
        if self.cancelled || cancel {
            ProcessRunView { cancelled: true, ..self }
        } else if line_kind(line) is Progress {
            self
        } else {
            ProcessRunView { output_lines: self.output_lines.push(line), ..self }
        }
    }

    /// The action for the line `line` that arrived while the cancellation
    /// flag stood at `cancel`.
    pub open spec fn action_on(self, line: Seq<char>, cancel: bool) -> LineActionView {
        if self.cancelled || cancel {
            LineActionView::Kill
        } else {
            action_for(line_kind(line))
        }
    }

    /// The run after the caller waited for a line in vain while the
    /// cancellation flag stood at `cancel`.
    pub open spec fn after_wait(self, cancel: bool) -> ProcessRunView {
        if self.cancelled || cancel {
            ProcessRunView { cancelled: true, ..self }
        } else {
            self
        }
    }

    /// The action after the caller waited for a line in vain while the
    /// cancellation flag stood at `cancel`.
    pub open spec fn action_on_wait(self, cancel: bool) -> LineActionView {
        if self.cancelled || cancel {
            LineActionView::Kill
        } else {
            LineActionView::Continue
        }
    }

    /// What the run amounts to, given how the process ended and when.
    pub open spec fn outcome(self, success: bool, stderr: Option<Seq<char>>, now: i64) -> Result<
        ExecutionResultView,
        ExecutionError,
    > {
        if self.cancelled {
            Err(ExecutionError::Cancelled)
        } else if success {
            match result_line(self.output_lines) {
                None => Err(ExecutionError::NoResultFound),
                Some(i) => match parsed_result(self.output_lines[i]) {
                    Ok(payload) => Ok(
                        ExecutionResultView {
                            execution_id: self.execution_id,
                            started_at: self.started_at,
                            completed_at: Some(now),
                            result: payload,
                            error: None,
                        },
                    ),
                    Err(e) => Err(e),
                },
            }
        } else {
            Ok(
                ExecutionResultView {
                    execution_id: self.execution_id,
                    started_at: self.started_at,
                    completed_at: Some(now),
                    result: failure_payload(stderr),
                    error: Some("Script execution failed"@),
                },
            )
        }
    }
}

/// The view of what a run amounts to.
pub open spec fn run_outcome_view(r: Result<ExecutionResult, ExecutionError>) -> Result<
    ExecutionResultView,
    ExecutionError,
> {
    match r {
        Ok(result) => Ok(result.deep_view()),
        Err(e) => Err(e),
    }
}

impl ProcessRun {
    /// A run that began at time `now` and has read nothing yet.
    pub fn start(execution_id: String, now: i64) -> (run: ProcessRun)
        ensures
            run.deep_view() == (ProcessRunView {
                execution_id: execution_id@,
                started_at: now,
                output_lines: Seq::empty(),
                cancelled: false,
            }),
    {
        let run = ProcessRun {
            execution_id,
            started_at: now,
            output_lines: Vec::new(),
            cancelled: false,
        };
        assert(run.output_lines.deep_view() =~= Seq::empty());
        run
    }

    /// Takes the next line of standard output, with the cancellation flag as
    /// it stands. The flag is looked at before the line: a cancelled run
    /// keeps no further line.
    pub fn on_line(&mut self, line: String, cancel: bool) -> (action: LineAction)
        ensures
            final(self).deep_view() == old(self).deep_view().after_line(line@, cancel),
            action.deep_view() == old(self).deep_view().action_on(line@, cancel),
    {
        if self.cancelled || cancel {
            self.cancelled = true;
            return LineAction::Kill;
        }
        match classify_line(line.as_str()) {
            OutputLine::Progress(Some(event)) => LineAction::Report(event),
            OutputLine::Progress(None) => LineAction::Continue,
            _ => {
                let ghost before = self.output_lines.deep_view();
                self.output_lines.push(line);
                assert(self.output_lines.deep_view() =~= before.push(line@));
                LineAction::Continue
            },
        }
    }

    /// Takes the cancellation flag as it stands after the caller has waited
    /// for a line and none has arrived: `Kill` where cancellation was
    /// requested, `Continue` where not.
    pub fn on_wait(&mut self, cancel: bool) -> (action: LineAction)
        ensures
            final(self).deep_view() == old(self).deep_view().after_wait(cancel),
            action.deep_view() == old(self).deep_view().action_on_wait(cancel),
    {
        if self.cancelled || cancel {
            self.cancelled = true;
            LineAction::Kill
        } else {
            LineAction::Continue
        }
    }

    /// What the run amounts to, once the process has ended: the payload of
    /// the result line after a successful exit, the classified error output
    /// after any other.
    pub fn finish(self, exit: &ProcessExit, now: i64) -> (r: Result<ExecutionResult, ExecutionError>)
        ensures
            run_outcome_view(r) == self.deep_view().outcome(
                exit.success,
                exit.stderr.deep_view(),
                now,
            ),
    {
        if self.cancelled {
            return Err(ExecutionError::Cancelled);
        }
        if exit.success {
            match find_result_line(&self.output_lines) {
                None => Err(ExecutionError::NoResultFound),
                Some(i) => {
                    let parsed = parse_result(self.output_lines[i].as_str());
                    match parsed {
                        Ok(payload) => Ok(
                            ExecutionResult {
                                execution_id: self.execution_id,
                                started_at: self.started_at,
                                completed_at: Some(now),
                                result: payload,
                                error: None,
                            },
                        ),
                        Err(e) => Err(e),
                    }
                },
            }
        } else {
            let message = match &exit.stderr {
                Some(text) => diagnose(text.as_str()).message,
                None => String::from_str(
                    "Script execution failed. Please check the generated script for errors.",
                ),
            };
            Ok(
                ExecutionResult {
                    execution_id: self.execution_id,
                    started_at: self.started_at,
                    completed_at: Some(now),
                    result: ResultPayload::Error { message },
                    error: Some(String::from_str("Script execution failed")),
                },
            )
        }
    }
}

/// The result line is the last line that is JSON and no progress event: it
/// is never a progress event, and no line after it could be the result.
pub proof fn lemma_result_line_is_last_candidate(lines: Seq<Seq<char>>, upto: int)
    requires
        0 <= upto <= lines.len(),
    ensures
        match last_candidate(lines, upto) {
            Some(i) => {
                &&& 0 <= i < upto
                &&& is_candidate(lines[i])
                &&& !(line_kind(lines[i]) is Progress)
                &&& forall|j: int| i < j < upto ==> !is_candidate(#[trigger] lines[j])
            },
            None => forall|j: int| 0 <= j < upto ==> !is_candidate(#[trigger] lines[j]),
        },
    decreases upto,
{
    if upto > 0 && !is_candidate(lines[upto - 1]) {
        lemma_result_line_is_last_candidate(lines, upto - 1);
    }
}

/// Progress events leave no trace in the outcome: a run that has read
/// `line`, a progress event, amounts to what it amounted to before.
pub proof fn lemma_progress_lines_do_not_count(
    run: ProcessRunView,
    line: Seq<char>,
    success: bool,
    stderr: Option<Seq<char>>,
    now: i64,
)
    requires
        line_kind(line) is Progress,
    ensures
        run.after_line(line, false).outcome(success, stderr, now) == run.outcome(
            success,
            stderr,
            now,
        ),
{
}

/// A run that was cancelled fails as cancelled, however the process ended
/// and whatever it had printed.
pub proof fn lemma_cancelled_run_is_cancelled(
    run: ProcessRunView,
    line: Seq<char>,
    success: bool,
    stderr: Option<Seq<char>>,
    now: i64,
)
    ensures
        run.action_on(line, true) == LineActionView::Kill,
        run.after_line(line, true).outcome(success, stderr, now) == Err::<
            ExecutionResultView,
            ExecutionError,
        >(ExecutionError::Cancelled),
        run.after_line(line, true).output_lines == run.output_lines,
{
}

/// A run whose cancellation is seen while no line arrives fails as
/// cancelled all the same, and keeps the lines that it had.
pub proof fn lemma_cancelled_while_waiting(
    run: ProcessRunView,
    success: bool,
    stderr: Option<Seq<char>>,
    now: i64,
)
    ensures
        run.action_on_wait(true) == LineActionView::Kill,
        run.after_wait(true).outcome(success, stderr, now) == Err::<
            ExecutionResultView,
            ExecutionError,
        >(ExecutionError::Cancelled),
        run.after_wait(true).output_lines == run.output_lines,
        !run.cancelled ==> run.after_wait(false) == run,
{
}

/// Once a run is cancelled, every further line is answered with `Kill` and
/// none is kept.
pub proof fn lemma_cancellation_stays(run: ProcessRunView, line: Seq<char>, cancel: bool)
    requires
        run.cancelled,
    ensures
        run.action_on(line, cancel) == LineActionView::Kill,
        run.after_line(line, cancel) == run,
{
}

/// The classification of the error output of a run that ended with a
/// non-zero exit code: its failure mode, the message that the result of the
/// run carries, and the diagnostic line. Nothing for a run that ended well
/// or left no error output to read.
pub fn failure_diagnosis(exit: &ProcessExit) -> (d: Option<Diagnosis>)
    ensures
        d is Some <==> !exit.success && exit.stderr is Some,
        d is Some ==> {
            let lines = lines_of(exit.stderr->Some_0@);
            &&& d->Some_0.kind == diagnosed_kind(rule_table(), lines)
            &&& d->Some_0.message@ == diagnosed_message(rule_table(), lines)
            &&& opt_view(d->Some_0.detail) == diagnosed_detail(rule_table(), lines)
            &&& failure_payload(exit.stderr.deep_view()) == (ResultPayloadView::Error {
                message: d->Some_0.message@,
            })
        },
{
    if exit.success {
        return None;
    }
    match &exit.stderr {
        Some(text) => Some(diagnose(text.as_str())),
        None => None,
    }
}

} // verus!
