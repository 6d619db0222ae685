//! The executor: the registry of executions and their life cycle.
//!
//! An execution is known by its identifier from the moment it is accepted
//! until it is reaped. It is `Running` until its run has ended, and then
//! `Completed`, `Failed` or `Cancelled` for good. The record of an ended
//! execution stays in the registry, with its last progress and its outcome,
//! until the caller reaps it: a poll never finds an execution gone that was
//! not reaped.
//!
//! The executor does not run anything. Its caller starts the child process
//! for an accepted script and reports back what happens; every decision on
//! the way is taken here or in the modules beside this one.

use vstd::prelude::*;
use vstd::string::*;
use crate::ai_script::diagnosis::diagnose;
use crate::ai_script::error::ExecutionError;
use crate::ai_script::host::{fresh_id, now_millis};
use crate::ai_script::interpreter::{parse_result, parsed_result};
use crate::ai_script::models::{
    ExecutionResult, ExecutionResultView, ExecutionState, ResultPayload, Script,
};
use crate::ai_script::progress::{initial_progress, ExecutionProgress, ExecutionProgressView};
use crate::ai_script::protocol::{
    encode_input, is_candidate, last_candidate, line_kind, OutputLineView,
    ProgressEvent,
};
use crate::ai_script::runner::{
    lemma_result_line_is_last_candidate, run_outcome_view, LineAction, LineActionView,
    ProcessExit, ProcessRun, ProcessRunView,
};
use crate::ai_script::security::{
    all_compile, any_match, deny_list, first_match, lemma_first_match_is_first,
    standard_patterns, SecurityValidator,
};
use crate::text::str_eq;

verus! {

/// What happens to an execution.
#[derive(Clone, Copy, Debug, PartialEq, Eq, Structural)]
pub enum Transition {
    /// The script was refused before it ran.
    Reject,
    /// The script was accepted and its run begins.
    Start,
    /// The run ended with a result.
    Succeed,
    /// The run ended with an error.
    Fail,
    /// The run was killed at the user's request.
    Cancel,
}

/// The state that follows `state` on `transition`; nothing where the
/// transition is not open to the state.
pub open spec fn next_state(state: ExecutionState, transition: Transition) -> Option<ExecutionState> {
    match (state, transition) {
        (ExecutionState::Pending, Transition::Reject) => Some(ExecutionState::Failed),
        (ExecutionState::Pending, Transition::Start) => Some(ExecutionState::Running),
        (ExecutionState::Running, Transition::Succeed) => Some(ExecutionState::Completed),
        (ExecutionState::Running, Transition::Fail) => Some(ExecutionState::Failed),
        (ExecutionState::Running, Transition::Cancel) => Some(ExecutionState::Cancelled),
        _ => None,
    }
}

/// Whether nothing follows `state`.
pub open spec fn is_terminal(state: ExecutionState) -> bool {
    state == ExecutionState::Completed || state == ExecutionState::Failed || state
        == ExecutionState::Cancelled
}

/// The state that follows `state` on `transition`.
pub fn advance(state: ExecutionState, transition: Transition) -> (next: Option<ExecutionState>)
    ensures
        next == next_state(state, transition),
{
    match (state, transition) {
        (ExecutionState::Pending, Transition::Reject) => Some(ExecutionState::Failed),
        (ExecutionState::Pending, Transition::Start) => Some(ExecutionState::Running),
        (ExecutionState::Running, Transition::Succeed) => Some(ExecutionState::Completed),
        (ExecutionState::Running, Transition::Fail) => Some(ExecutionState::Failed),
        (ExecutionState::Running, Transition::Cancel) => Some(ExecutionState::Cancelled),
        _ => None,
    }
}

/// The state of an execution with the outcome that is recorded for it:
/// running while there is none.
pub open spec fn outcome_state(
    result: Option<ExecutionResultView>,
    failure: Option<ExecutionError>,
) -> ExecutionState {
    match failure {
        Some(ExecutionError::Cancelled) => ExecutionState::Cancelled,
        Some(_) => ExecutionState::Failed,
        None => match result {
            Some(r) => if r.result is Error {
                ExecutionState::Failed
            } else {
                ExecutionState::Completed
            },
            None => ExecutionState::Running,
        },
    }
}

/// A row count as the machine can hold it: counts beyond its range are held
/// at the largest value.
pub open spec fn saturated(n: u64) -> usize {
    if n <= usize::MAX {
        n as usize
    } else {
        usize::MAX
    }
}

/// The execution after the progress events among the first `upto` lines
/// were recorded at time `now`. Nothing is recorded for an execution whose
/// cancellation was requested.
pub open spec fn entry_after(e: ActiveExecutionView, lines: Seq<Seq<char>>, upto: int, now: i64) -> ActiveExecutionView
    decreases upto,
{
    if upto <= 0 {
        e
    } else {
        let before = entry_after(e, lines, upto - 1, now);
        if upto > lines.len() || e.cancelled {
            before
        } else {
            match line_kind(lines[upto - 1]) {
                OutputLineView::Progress(Some(event)) => before.reported(
                    event.processed,
                    event.step,
                    now,
                ),
                _ => before,
            }
        }
    }
}

/// The run after it has read the first `upto` lines while the cancellation
/// flag stood at `cancel`.
pub open spec fn run_after(run: ProcessRunView, lines: Seq<Seq<char>>, cancel: bool, upto: int) -> ProcessRunView
    decreases upto,
{
    if upto <= 0 {
        run
    } else if upto > lines.len() {
        run_after(run, lines, cancel, upto - 1)
    } else {
        run_after(run, lines, cancel, upto - 1).after_line(lines[upto - 1], cancel)
    }
}

/// A run that has read nothing yet.
pub open spec fn fresh_run(id: Seq<char>, started_at: i64) -> ProcessRunView {
    ProcessRunView { execution_id: id, started_at, output_lines: Seq::empty(), cancelled: false }
}

/// Whether cancellation of an execution was requested; not for one that the
/// registry does not hold.
pub open spec fn cancel_flag(held: Option<ActiveExecutionView>) -> bool {
    match held {
        Some(e) => e.cancelled,
        None => false,
    }
}

/// Recording progress leaves the state and the outcome of an execution as
/// they are.
pub proof fn lemma_entry_keeps_state(e: ActiveExecutionView, lines: Seq<Seq<char>>, upto: int, now: i64)
    ensures
        entry_after(e, lines, upto, now).state == e.state,
        entry_after(e, lines, upto, now).result == e.result,
        entry_after(e, lines, upto, now).failure == e.failure,
    decreases upto,
{
    if upto > 0 {
        lemma_entry_keeps_state(e, lines, upto - 1, now);
    }
}

/// Reading lines leaves the identifier and the start of a run as they are,
/// and a run is cancelled only where cancellation was requested.
pub proof fn lemma_run_keeps_identity(run: ProcessRunView, lines: Seq<Seq<char>>, cancel: bool, upto: int)
    ensures
        run_after(run, lines, cancel, upto).execution_id == run.execution_id,
        run_after(run, lines, cancel, upto).started_at == run.started_at,
        !cancel && !run.cancelled ==> !run_after(run, lines, cancel, upto).cancelled,
    decreases upto,
{
    if upto > 0 {
        lemma_run_keeps_identity(run, lines, cancel, upto - 1);
    }
}

/// The lines among the first `upto` that a run keeps: those that are no
/// progress events.
pub open spec fn kept_lines(lines: Seq<Seq<char>>, upto: int) -> Seq<Seq<char>>
    decreases upto,
{
    if upto <= 0 {
        Seq::empty()
    } else if upto > lines.len() || line_kind(lines[upto - 1]) is Progress {
        kept_lines(lines, upto - 1)
    } else {
        kept_lines(lines, upto - 1).push(lines[upto - 1])
    }
}

/// The last of the first `upto` lines that may be the result.
pub open spec fn final_line(lines: Seq<Seq<char>>, upto: int) -> Option<Seq<char>> {
    match last_candidate(lines, upto) {
        Some(i) => Some(lines[i]),
        None => None,
    }
}

/// A run that nobody cancels keeps every line that is no progress event, in
/// the order in which the lines arrived.
pub proof fn lemma_run_keeps_lines(run: ProcessRunView, lines: Seq<Seq<char>>, upto: int)
    requires
        !run.cancelled,
    ensures
        run_after(run, lines, false, upto).output_lines == run.output_lines + kept_lines(
            lines,
            upto,
        ),
        !run_after(run, lines, false, upto).cancelled,
    decreases upto,
{
    if upto > 0 {
        lemma_run_keeps_lines(run, lines, upto - 1);
        let before = run_after(run, lines, false, upto - 1);
        if upto <= lines.len() && !(line_kind(lines[upto - 1]) is Progress) {
            assert(before.output_lines.push(lines[upto - 1]) =~= run.output_lines + kept_lines(
                lines,
                upto - 1,
            ).push(lines[upto - 1]));
        }
    } else {
        assert(run.output_lines + kept_lines(lines, upto) =~= run.output_lines);
    }
}

/// Which line may be the result depends on the lines before `upto` alone.
pub proof fn lemma_final_line_of_prefix(a: Seq<Seq<char>>, b: Seq<Seq<char>>, upto: int)
    requires
        0 <= upto <= a.len(),
        upto <= b.len(),
        forall|k: int| 0 <= k < upto ==> a[k] == b[k],
    ensures
        last_candidate(a, upto) == last_candidate(b, upto),
    decreases upto,
{
    if upto > 0 && !is_candidate(a[upto - 1]) {
        lemma_final_line_of_prefix(a, b, upto - 1);
    }
}

/// Leaving out the progress events changes nothing about the result line:
/// the last candidate among the lines that a run keeps is the last
/// candidate among all lines.
pub proof fn lemma_kept_lines_hold_the_result(lines: Seq<Seq<char>>, upto: int)
    requires
        0 <= upto <= lines.len(),
    ensures
        final_line(kept_lines(lines, upto), kept_lines(lines, upto).len() as int) == final_line(
            lines,
            upto,
        ),
    decreases upto,
{
    if upto > 0 {
        lemma_kept_lines_hold_the_result(lines, upto - 1);
        let line = lines[upto - 1];
        let before = kept_lines(lines, upto - 1);
        if !(line_kind(line) is Progress) {
            let now = before.push(line);
            if !is_candidate(line) {
                lemma_final_line_of_prefix(now, before, before.len() as int);
                match last_candidate(before, before.len() as int) {
                    Some(i) => {
                        lemma_result_line_is_last_candidate(before, before.len() as int);
                        assert(now[i] == before[i]);
                    },
                    None => {},
                }
            }
        }
    }
}

/// What a run amounts to that nobody cancelled and whose process exited
/// with code 0: the payload of the last line, among all lines that the
/// process printed, that is JSON and no progress event; without such a
/// line, the failure to find a result.
pub proof fn lemma_replay_gives_the_last_result(
    lines: Seq<Seq<char>>,
    stderr: Option<Seq<char>>,
    id: Seq<char>,
    started_at: i64,
    now: i64,
)
    ensures
        replay_outcome(lines, true, stderr, id, started_at, now) == (
        match final_line(lines, lines.len() as int) {
            None => Err::<ExecutionResultView, ExecutionError>(ExecutionError::NoResultFound),
            Some(line) => match parsed_result(line) {
                Ok(payload) => Ok(
                    ExecutionResultView {
                        execution_id: id,
                        started_at,
                        completed_at: Some(now),
                        result: payload,
                        error: None,
                    },
                ),
                Err(e) => Err(e),
            },
        }),
{
    let n = lines.len() as int;
    lemma_run_keeps_lines(fresh_run(id, started_at), lines, n);
    lemma_run_keeps_identity(fresh_run(id, started_at), lines, false, n);
    lemma_kept_lines_hold_the_result(lines, n);
    let run = run_after(fresh_run(id, started_at), lines, false, n);
    assert(run.output_lines =~= kept_lines(lines, n));
}

/// Once cancellation is requested, the next line that arrives ends the run
/// as cancelled, however the process exits and whatever it has printed, and
/// no line is kept from then on.
pub proof fn lemma_requested_cancellation_ends_the_run(
    run: ProcessRunView,
    lines: Seq<Seq<char>>,
    upto: int,
    success: bool,
    stderr: Option<Seq<char>>,
    now: i64,
)
    requires
        1 <= upto <= lines.len(),
    ensures
        run_after(run, lines, true, upto).cancelled,
        run_after(run, lines, true, upto).output_lines == run.output_lines,
        run_after(run, lines, true, upto).outcome(success, stderr, now) == Err::<
            ExecutionResultView,
            ExecutionError,
        >(ExecutionError::Cancelled),
    decreases upto,
{
    if upto > 1 {
        lemma_requested_cancellation_ends_the_run(run, lines, upto - 1, success, stderr, now);
    } else {
        assert(run_after(run, lines, true, 0) == run);
    }
}

/// Recording progress leaves the request for cancellation as it is.
pub proof fn lemma_entry_keeps_flag(e: ActiveExecutionView, lines: Seq<Seq<char>>, upto: int, now: i64)
    ensures
        entry_after(e, lines, upto, now).cancelled == e.cancelled,
        entry_after(e, lines, upto, now).id() == e.id(),
    decreases upto,
{
    if upto > 0 {
        lemma_entry_keeps_flag(e, lines, upto - 1, now);
    }
}

/// One execution in the registry.
#[derive(Debug)]
pub struct ActiveExecution {
    /// Where the execution stands.
    pub state: ExecutionState,
    /// The progress that was last reported. It names the execution.
    pub progress: ExecutionProgress,
    /// Whether cancellation was requested.
    pub cancelled: bool,
    /// The result of the run, once it has ended with one.
    pub result: Option<ExecutionResult>,
    /// The failure of the run, once it has ended with one.
    pub failure: Option<ExecutionError>,
}

/// The mathematical value of an [`ActiveExecution`].
pub struct ActiveExecutionView {
    pub state: ExecutionState,
    pub progress: ExecutionProgressView,
    pub cancelled: bool,
    pub result: Option<ExecutionResultView>,
    pub failure: Option<ExecutionError>,
}

impl DeepView for ActiveExecution {
    type V = ActiveExecutionView;

    open spec fn deep_view(&self) -> ActiveExecutionView {
        ActiveExecutionView {
            state: self.state,
            progress: self.progress.deep_view(),
            cancelled: self.cancelled,
            result: self.result.deep_view(),
            failure: self.failure,
        }
    }
}

impl ActiveExecutionView {
    /// The identifier of the execution.
    pub open spec fn id(self) -> Seq<char> {
        self.progress.execution_id
    }

    /// The state and the recorded outcome agree, and at most one outcome is
    /// recorded.
    pub open spec fn consistent(self) -> bool {
        &&& self.state == outcome_state(self.result, self.failure)
        &&& !(self.result is Some && self.failure is Some)
    }

    /// The execution after cancellation was requested: the request is
    /// recorded while the execution runs, and changes nothing after.
    pub open spec fn cancel_requested(self) -> Self {
        if self.state == ExecutionState::Running {
            ActiveExecutionView { cancelled: true, ..self }
        } else {
            self
        }
    }

    /// The execution after a report of progress: recorded while the
    /// execution runs, and dropped after.
    pub open spec fn reported(self, processed: u64, step: Seq<char>, now: i64) -> Self {
        if self.state == ExecutionState::Running {
            ActiveExecutionView {
                progress: self.progress.updated(saturated(processed), step, now),
                ..self
            }
        } else {
            self
        }
    }

    /// The execution after its run has ended with `outcome`.
    pub open spec fn ended_by(self, outcome: Result<ExecutionResult, ExecutionError>) -> Self {
        if outcome is Ok {
            self.ended(Some(outcome->Ok_0.deep_view()), None)
        } else {
            self.ended(None, Some(outcome->Err_0))
        }
    }

    /// The execution after its run has ended with `result` or `failure`.
    pub open spec fn ended(
        self,
        result: Option<ExecutionResultView>,
        failure: Option<ExecutionError>,
    ) -> Self {
        ActiveExecutionView { state: outcome_state(result, failure), result, failure, ..self }
    }
}

/// An execution that has just been accepted.
pub open spec fn accepted(id: Seq<char>, total_rows: usize, now: i64) -> ActiveExecutionView {
    ActiveExecutionView {
        state: ExecutionState::Running,
        progress: initial_progress(id, total_rows, now),
        cancelled: false,
        result: None,
        failure: None,
    }
}

/// The index of the first execution at or after `from` with the identifier
/// `id`.
pub open spec fn find_from(entries: Seq<ActiveExecutionView>, id: Seq<char>, from: int) -> Option<
    int,
>
    decreases entries.len() - from,
{
    if from < 0 || from >= entries.len() {
        None
    } else if entries[from].id() == id {
        Some(from)
    } else {
        find_from(entries, id, from + 1)
    }
}

/// No two executions share an identifier.
pub open spec fn distinct_ids(entries: Seq<ActiveExecutionView>) -> bool {
    forall|i: int, j: int|
        0 <= i < entries.len() && 0 <= j < entries.len() && i != j ==> entries[i].id()
            != entries[j].id()
}

/// What [`find_from`] finds is the first execution with the identifier.
pub proof fn lemma_find_from(entries: Seq<ActiveExecutionView>, id: Seq<char>, from: int)
    requires
        0 <= from,
    ensures
        match find_from(entries, id, from) {
            Some(i) => {
                &&& from <= i < entries.len()
                &&& entries[i].id() == id
                &&& forall|j: int| from <= j < i ==> entries[j].id() != id
            },
            None => forall|j: int| from <= j < entries.len() ==> entries[j].id() != id,
        },
    decreases entries.len() - from,
{
    if from < entries.len() && entries[from].id() != id {
        lemma_find_from(entries, id, from + 1);
    }
}

/// Among distinct identifiers, an execution is found exactly where it is.
pub proof fn lemma_find_at(entries: Seq<ActiveExecutionView>, at: int)
    requires
        distinct_ids(entries),
        0 <= at < entries.len(),
    ensures
        find_from(entries, entries[at].id(), 0) == Some(at),
{
    lemma_find_from(entries, entries[at].id(), 0);
}

/// The record of an execution after a line arrived for its run `run` at
/// time `now`: the progress that the line reports is recorded, unless the
/// run is cancelled or its cancellation was requested.
pub open spec fn entry_on_line(
    e: ActiveExecutionView,
    run: ProcessRunView,
    line: Seq<char>,
    now: i64,
) -> ActiveExecutionView {
    match run.action_on(line, e.cancelled) {
        LineActionView::Report(event) => e.reported(event.processed, event.step, now),
        _ => e,
    }
}

/// Cancellation is acted upon at the next occasion: once it was requested
/// for a running execution, the next line that arrives for its run, and the
/// next wait without a line, are answered with `Kill`; the run then fails as
/// cancelled, however the process ends and whatever it had printed, and the
/// execution ends in the state `Cancelled`.
pub proof fn lemma_cancellation_is_acted_upon(
    e: ActiveExecutionView,
    run: ProcessRunView,
    line: Seq<char>,
    success: bool,
    stderr: Option<Seq<char>>,
    now: i64,
)
    requires
        e.state == ExecutionState::Running,
    ensures
        cancel_flag(Some(e.cancel_requested())),
        run.action_on(line, cancel_flag(Some(e.cancel_requested()))) == LineActionView::Kill,
        run.action_on_wait(cancel_flag(Some(e.cancel_requested()))) == LineActionView::Kill,
        run.after_line(line, true).outcome(success, stderr, now) == Err::<
            ExecutionResultView,
            ExecutionError,
        >(ExecutionError::Cancelled),
        run.after_wait(true).outcome(success, stderr, now) == Err::<
            ExecutionResultView,
            ExecutionError,
        >(ExecutionError::Cancelled),
        entry_on_line(e.cancel_requested(), run, line, now) == e.cancel_requested(),
        e.cancel_requested().ended(None, Some(ExecutionError::Cancelled)).state
            == ExecutionState::Cancelled,
{
}

/// Whether `e` is the refusal of a script that names the pattern `pattern`.
pub open spec fn names_pattern(e: ExecutionError, pattern: Seq<char>) -> bool {
    e is SecurityViolation && e->SecurityViolation_pattern@ == pattern
}

/// What the run of the execution `id` amounts to when it is taken from its
/// recorded output: the lines are read with no cancellation requested, and
/// the exit of the process decides.
pub open spec fn replay_outcome(
    lines: Seq<Seq<char>>,
    success: bool,
    stderr: Option<Seq<char>>,
    id: Seq<char>,
    started_at: i64,
    now: i64,
) -> Result<ExecutionResultView, ExecutionError> {
    run_after(fresh_run(id, started_at), lines, false, lines.len() as int).outcome(
        success,
        stderr,
        now,
    )
}

/// The record of the execution `id` on a table of `total_rows` rows, after
/// its run was taken from its recorded output and has ended with `outcome`.
pub open spec fn replay_record(
    total_rows: usize,
    lines: Seq<Seq<char>>,
    outcome: Result<ExecutionResultView, ExecutionError>,
    id: Seq<char>,
    started_at: i64,
    now: i64,
) -> ActiveExecutionView {
    let read = entry_after(accepted(id, total_rows, started_at), lines, lines.len() as int, now);
    match outcome {
        Ok(result) => read.ended(Some(result), None),
        Err(e) => read.ended(None, Some(e)),
    }
}

/// The registry of executions, with the validator that admits scripts to it.
pub struct ScriptExecutor {
    active_executions: Vec<ActiveExecution>,
    security_validator: SecurityValidator,
}

impl ScriptExecutor {
    /// The executions of the registry.
    pub closed spec fn entries(&self) -> Seq<ActiveExecutionView> {
        self.active_executions.deep_view()
    }

    /// The registry is well-formed: identifiers are distinct, and the state
    /// of each execution agrees with its recorded outcome.
    pub closed spec fn wf(&self) -> bool {
        &&& distinct_ids(self.entries())
        &&& forall|i: int| 0 <= i < self.entries().len() ==> (#[trigger] self.entries()[i]).consistent()
    }

    /// The execution with the identifier `id`, if the registry holds one.
    pub closed spec fn lookup(&self, id: Seq<char>) -> Option<ActiveExecutionView> {
        match find_from(self.entries(), id, 0) {
            Some(i) => Some(self.entries()[i]),
            None => None,
        }
    }

    /// The patterns that the executor's validator denies.
    pub closed spec fn denied(&self) -> Seq<Seq<char>> {
        self.security_validator.patterns()
    }

    /// Whether the registry holds the same executions as `other`.
    pub open spec fn same_executions(&self, other: &ScriptExecutor) -> bool {
        forall|id: Seq<char>| #[trigger] self.lookup(id) == other.lookup(id)
    }

    /// Whether the registry holds the same executions as `other` under every
    /// identifier but `id`.
    pub open spec fn same_but(&self, other: &ScriptExecutor, id: Seq<char>) -> bool {
        forall|k: Seq<char>| k != id ==> #[trigger] self.lookup(k) == other.lookup(k)
    }

    /// Whether `self` and `r` are what becomes of the registry `before` when
    /// a script is submitted under the identifier `id` at time `now`: a
    /// script that a denied pattern matches is refused with the first such
    /// pattern; an identifier that the registry holds is refused; otherwise
    /// the execution is registered as running. A refusal changes nothing.
    pub open spec fn submitted(
        &self,
        before: &ScriptExecutor,
        r: Result<(), ExecutionError>,
        script: Seq<char>,
        id: Seq<char>,
        total_rows: usize,
        now: i64,
    ) -> bool {
        match first_match(before.denied(), script, 0) {
            Some(i) => r is Err && names_pattern(r->Err_0, before.denied()[i])
                && self.same_executions(before),
            None => match before.lookup(id) {
                Some(held) => r == Err::<(), ExecutionError>(ExecutionError::IdInUse)
                    && self.same_executions(before),
                None => r is Ok && self.lookup(id) == Some(accepted(id, total_rows, now))
                    && self.same_but(before, id),
            },
        }
    }

    /// Whether `self` and `r` are what becomes of the registry `before` when
    /// a script is run on a table of `total_rows` rows from its recorded
    /// output, under the identifier `id`, begun at `started_at` and ended
    /// at `now`: refused as on submission, or registered, read, and ended
    /// with what the run amounts to, which is also what is returned.
    pub open spec fn replayed(
        &self,
        before: &ScriptExecutor,
        r: Result<ExecutionResult, ExecutionError>,
        script: Seq<char>,
        total_rows: usize,
        lines: Seq<Seq<char>>,
        success: bool,
        stderr: Option<Seq<char>>,
        id: Seq<char>,
        started_at: i64,
        now: i64,
    ) -> bool {
        match first_match(before.denied(), script, 0) {
            Some(i) => r is Err && names_pattern(r->Err_0, before.denied()[i])
                && self.same_executions(before),
            None => match before.lookup(id) {
                Some(held) => r == Err::<ExecutionResult, ExecutionError>(ExecutionError::IdInUse)
                    && self.same_executions(before),
                None => {
                    let outcome = replay_outcome(lines, success, stderr, id, started_at, now);
                    &&& run_outcome_view(r) == outcome
                    &&& self.same_but(before, id)
                    &&& self.lookup(id) == Some(
                        replay_record(total_rows, lines, outcome, id, started_at, now),
                    )
                },
            },
        }
    }

    /// An executor with an empty registry and the given validator.
    pub fn with_validator(security_validator: SecurityValidator) -> (executor: ScriptExecutor)
        ensures
            executor.wf(),
            executor.denied() == security_validator.patterns(),
            forall|id: Seq<char>| #[trigger] executor.lookup(id) is None,
    {
        let executor = ScriptExecutor { active_executions: Vec::new(), security_validator };
        assert(executor.entries() =~= Seq::empty());
        executor
    }

    /// An executor with an empty registry, whose validator denies the
    /// patterns of [`deny_list`] that are accepted as regular expressions.
    pub fn new() -> (executor: ScriptExecutor)
        ensures
            executor.wf(),
            forall|id: Seq<char>| #[trigger] executor.lookup(id) is None,
            executor.denied() == standard_patterns(),
            all_compile(deny_list()) ==> executor.denied() == deny_list(),
    {
        ScriptExecutor::with_validator(SecurityValidator::new())
    }

    /// Where the registry holds the execution `id`.
    fn position(&self, id: &str) -> (found: Option<usize>)
        ensures
            match found {
                Some(i) => i < self.active_executions.len() && find_from(self.entries(), id@, 0)
                    == Some(i as int) && self.entries()[i as int].id() == id@,
                None => find_from(self.entries(), id@, 0) is None,
            },
    {
        let mut i: usize = 0;
        while i < self.active_executions.len()
            invariant
                i <= self.active_executions.len(),
                find_from(self.entries(), id@, 0) == find_from(self.entries(), id@, i as int),
            decreases self.active_executions.len() - i,
        {
            if str_eq(self.active_executions[i].progress.execution_id.as_str(), id) {
                return Some(i);
            }
            i += 1;
        }
        None
    }

    /// Checks a script against the deny-list. Nothing is registered and
    /// nothing is run.
    pub fn validate(&self, script: &Script) -> (r: Result<(), ExecutionError>)
        ensures
            r is Err <==> any_match(self.denied(), script.content@),
            match first_match(self.denied(), script.content@, 0) {
                Some(i) => r is Err && names_pattern(r->Err_0, self.denied()[i]),
                None => r is Ok,
            },
    {
        self.security_validator.validate_script(script.content.as_str())
    }

    /// Registers an execution under the identifier `id`, running from time
    /// `now` on. An identifier that the registry holds is refused.
    pub fn begin(&mut self, id: String, total_rows: usize, now: i64) -> (r: Result<
        (),
        ExecutionError,
    >)
        requires
            old(self).wf(),
        ensures
            final(self).wf(),
            final(self).denied() == old(self).denied(),
            final(self).same_but(old(self), id@),
            match old(self).lookup(id@) {
                Some(held) => r == Err::<(), ExecutionError>(ExecutionError::IdInUse)
                    && final(self).lookup(id@) == Some(held),
                None => r is Ok && final(self).lookup(id@) == Some(accepted(id@, total_rows, now)),
            },
    {
        if self.position(id.as_str()).is_some() {
            return Err(ExecutionError::IdInUse);
        }
        let ghost before = self.entries();
        let ghost key = id@;
        let entry = ActiveExecution {
            state: ExecutionState::Running,
            progress: ExecutionProgress::new_at(id, total_rows, now),
            cancelled: false,
            result: None,
            failure: None,
        };
        self.active_executions.push(entry);
        proof {
            let after = self.entries();
            assert(after =~= before.push(accepted(key, total_rows, now)));
            lemma_find_from(before, key, 0);
            assert(distinct_ids(after));
            lemma_find_at(after, before.len() as int);
            assert forall|k: Seq<char>| k != key implies #[trigger] self.lookup(k) == old(self).lookup(k) by {
                lemma_find_from(before, k, 0);
                lemma_find_from(after, k, 0);
                assert(forall|j: int| 0 <= j < before.len() ==> after[j] == before[j]);
                match find_from(before, k, 0) {
                    Some(x) => {
                        assert(after[x] == before[x]);
                        lemma_find_at(after, x);
                    },
                    None => {
                        match find_from(after, k, 0) {
                            Some(j) => {
                                assert(j < before.len());
                                assert(after[j] == before[j]);
                            },
                            None => {},
                        }
                    },
                }
            }
        }
        Ok(())
    }

    /// Accepts a script for execution under the identifier `id` at time
    /// `now`: checks it against the deny-list and, where it passes and the
    /// identifier is free, registers the execution as running. A script
    /// that is refused is never registered, and so never run.
    pub fn submit_as(&mut self, script: &Script, id: String, total_rows: usize, now: i64) -> (r:
        Result<(), ExecutionError>)
        requires
            old(self).wf(),
        ensures
            final(self).wf(),
            final(self).denied() == old(self).denied(),
            final(self).submitted(old(self), r, script.content@, id@, total_rows, now),
    {
        match self.validate(script) {
            Err(e) => {
                return Err(e);
            },
            Ok(()) => {},
        }
        let ghost key = id@;
        let r = self.begin(id, total_rows, now);
        proof {
            if r is Err {
                assert forall|k: Seq<char>| #[trigger] self.lookup(k) == old(self).lookup(k) by {
                    if k != key {
                    }
                }
            }
        }
        r
    }

    /// Accepts a script for execution: checks it against the deny-list and,
    /// where it passes, registers an execution under a fresh identifier,
    /// which is handed out. A script that is refused is never registered,
    /// and so never run; the refusal names the first denied pattern that
    /// matches. The identifier is minted at random: should the registry hold
    /// it already, the script is refused as well, which cannot happen to an
    /// empty registry.
    pub fn submit(&mut self, script: &Script, total_rows: usize) -> (r: Result<
        String,
        ExecutionError,
    >)
        requires
            old(self).wf(),
        ensures
            final(self).wf(),
            final(self).denied() == old(self).denied(),
            match first_match(old(self).denied(), script.content@, 0) {
                Some(i) => r is Err && names_pattern(r->Err_0, old(self).denied()[i])
                    && final(self).same_executions(old(self)),
                None => match r {
                    Ok(id) => exists|now: i64| #[trigger]
                        final(self).submitted(
                            old(self),
                            Ok::<(), ExecutionError>(()),
                            script.content@,
                            id@,
                            total_rows,
                            now,
                        ),
                    Err(e) => e == ExecutionError::IdInUse && final(self).same_executions(
                        old(self),
                    ) && exists|id: Seq<char>| #[trigger] old(self).lookup(id) is Some,
                },
            },
            any_match(old(self).denied(), script.content@) <==> r is Err
                && r->Err_0 is SecurityViolation,
            !any_match(old(self).denied(), script.content@) && (forall|id: Seq<char>| #[trigger]
                old(self).lookup(id) is None) ==> r is Ok,
            r is Ok ==> old(self).lookup(r->Ok_0@) is None && final(self).lookup(r->Ok_0@) is Some
                && final(self).lookup(r->Ok_0@)->Some_0.state == ExecutionState::Running
                && final(self).same_but(old(self), r->Ok_0@),
    {
        proof {
            lemma_first_match_is_first(old(self).denied(), script.content@, 0);
        }
        let id = fresh_id();
        let now = now_millis();
        let copy = id.clone();
        match self.submit_as(script, copy, total_rows, now) {
            Ok(()) => {
                assert(self.submitted(
                    old(self),
                    Ok::<(), ExecutionError>(()),
                    script.content@,
                    id@,
                    total_rows,
                    now,
                ));
                Ok(id)
            },
            Err(e) => {
                proof {
                    if first_match(old(self).denied(), script.content@, 0) is None {
                        assert(old(self).lookup(id@) is Some);
                    }
                }
                Err(e)
            },
        }
    }

    /// The progress of the execution `id` as last reported, while the
    /// registry holds the execution.
    pub fn get_progress(&self, id: &str) -> (r: Option<ExecutionProgress>)
        requires
            self.wf(),
        ensures
            match self.lookup(id@) {
                Some(held) => r is Some && r->Some_0.deep_view() == held.progress
                    && r->Some_0.execution_id@ == id@,
                None => r is None,
            },
    {
        match self.position(id) {
            Some(i) => Some(self.active_executions[i].progress.duplicate()),
            None => None,
        }
    }

    /// The state of the execution `id`, while the registry holds it.
    pub fn state(&self, id: &str) -> (r: Option<ExecutionState>)
        requires
            self.wf(),
        ensures
            match self.lookup(id@) {
                Some(held) => r == Some(held.state),
                None => r is None,
            },
    {
        match self.position(id) {
            Some(i) => Some(self.active_executions[i].state),
            None => None,
        }
    }

    /// Whether cancellation of the execution `id` was requested.
    pub fn is_cancelled(&self, id: &str) -> (r: bool)
        requires
            self.wf(),
        ensures
            r == match self.lookup(id@) {
                Some(held) => held.cancelled,
                None => false,
            },
    {
        match self.position(id) {
            Some(i) => self.active_executions[i].cancelled,
            None => false,
        }
    }

    /// Requests cancellation of the execution `id`. The request is recorded
    /// for the run to see at its next line; it ends nothing by itself.
    pub fn cancel_execution(&mut self, id: &str) -> (r: Result<(), ExecutionError>)
        requires
            old(self).wf(),
        ensures
            final(self).wf(),
            final(self).denied() == old(self).denied(),
            final(self).same_but(old(self), id@),
            match old(self).lookup(id@) {
                Some(held) => r is Ok && final(self).lookup(id@) == Some(held.cancel_requested()),
                None => r == Err::<(), ExecutionError>(ExecutionError::NotFound) && final(self).lookup(id@) is None,
            },
    {
        match self.position(id) {
            Some(i) => {
                let ghost before = self.entries();
                if self.active_executions[i].state == ExecutionState::Running {
                    self.active_executions[i].cancelled = true;
                }
                proof {
                    let after = self.entries();
                    assert(after =~= before.update(i as int, before[i as int].cancel_requested()));
                    lemma_update_keeps_others(before, after, i as int);
                    assert forall|k: Seq<char>| k != id@ implies #[trigger] self.lookup(k) == old(self).lookup(k) by {
                        lemma_find_from(before, k, 0);
                    }
                }
                Ok(())
            },
            None => Err(ExecutionError::NotFound),
        }
    }

    /// Records a progress event of the execution `id` at time `now`. Says
    /// whether the registry holds the execution.
    pub fn report_progress(&mut self, id: &str, event: &ProgressEvent, now: i64) -> (held: bool)
        requires
            old(self).wf(),
        ensures
            final(self).wf(),
            final(self).denied() == old(self).denied(),
            final(self).same_but(old(self), id@),
            held == (old(self).lookup(id@) is Some),
            match old(self).lookup(id@) {
                Some(e) => final(self).lookup(id@) == Some(
                    e.reported(event.processed, event.step@, now),
                ),
                None => final(self).lookup(id@) is None,
            },
    {
        match self.position(id) {
            Some(i) => {
                let ghost before = self.entries();
                if self.active_executions[i].state == ExecutionState::Running {
                    let processed: usize = if event.processed <= usize::MAX as u64 {
                        event.processed as usize
                    } else {
                        usize::MAX
                    };
                    self.active_executions[i].progress.update_at(
                        processed,
                        event.step.clone(),
                        now,
                    );
                }
                proof {
                    let after = self.entries();
                    assert(after =~= before.update(
                        i as int,
                        before[i as int].reported(event.processed, event.step@, now),
                    ));
                    lemma_update_keeps_others(before, after, i as int);
                    assert forall|k: Seq<char>| k != id@ implies #[trigger] self.lookup(k) == old(self).lookup(k) by {
                        lemma_find_from(before, k, 0);
                    }
                }
                true
            },
            None => false,
        }
    }

    /// Records how the run of the execution `id` ended. An execution ends
    /// once: for one that has ended, and for one that the registry does not
    /// hold, nothing is recorded.
    pub fn complete(&mut self, id: &str, outcome: Result<ExecutionResult, ExecutionError>) -> (r:
        Result<ExecutionState, ExecutionError>)
        requires
            old(self).wf(),
        ensures
            final(self).wf(),
            final(self).denied() == old(self).denied(),
            final(self).same_but(old(self), id@),
            match old(self).lookup(id@) {
                Some(held) => if held.state == ExecutionState::Running {
                    let ended = held.ended_by(outcome);
                    &&& final(self).lookup(id@) == Some(ended)
                    &&& r == Ok::<ExecutionState, ExecutionError>(ended.state)
                    &&& is_terminal(ended.state)
                } else {
                    &&& final(self).lookup(id@) == Some(held)
                    &&& r == Err::<ExecutionState, ExecutionError>(ExecutionError::AlreadyEnded)
                },
                None => r == Err::<ExecutionState, ExecutionError>(ExecutionError::NotFound)
                    && final(self).lookup(id@) is None,
            },
    {
        match self.position(id) {
            Some(i) => {
                if self.active_executions[i].state != ExecutionState::Running {
                    return Err(ExecutionError::AlreadyEnded);
                }
                let ghost before = self.entries();
                let ghost ended = before[i as int].ended_by(outcome);
                let state = match outcome {
                    Ok(result) => {
                        let state = match &result.result {
                            ResultPayload::Error { .. } => ExecutionState::Failed,
                            _ => ExecutionState::Completed,
                        };
                        self.active_executions[i].result = Some(result);
                        state
                    },
                    Err(e) => {
                        let state = match &e {
                            ExecutionError::Cancelled => ExecutionState::Cancelled,
                            _ => ExecutionState::Failed,
                        };
                        self.active_executions[i].failure = Some(e);
                        state
                    },
                };
                self.active_executions[i].state = state;
                proof {
                    let after = self.entries();
                    assert(after =~= before.update(i as int, ended));
                    lemma_update_keeps_others(before, after, i as int);
                    assert forall|k: Seq<char>| k != id@ implies #[trigger] self.lookup(k) == old(self).lookup(k) by {
                        lemma_find_from(before, k, 0);
                    }
                }
                Ok(state)
            },
            None => Err(ExecutionError::NotFound),
        }
    }

    /// Removes the record of the execution `id` once it has ended, and hands
    /// out its outcome. The record of a running execution stays.
    pub fn reap(&mut self, id: &str) -> (r: Option<Result<ExecutionResult, ExecutionError>>)
        requires
            old(self).wf(),
        ensures
            final(self).wf(),
            final(self).denied() == old(self).denied(),
            final(self).same_but(old(self), id@),
            match old(self).lookup(id@) {
                Some(held) => if is_terminal(held.state) {
                    &&& final(self).lookup(id@) is None
                    &&& match r {
                        Some(Ok(result)) => held.result == Some(result.deep_view())
                            && held.failure is None,
                        Some(Err(e)) => held.failure == Some(e) && held.result is None,
                        None => false,
                    }
                } else {
                    final(self).lookup(id@) == Some(held) && r is None
                },
                None => final(self).lookup(id@) is None && r is None,
            },
    {
        match self.position(id) {
            Some(i) => {
                if self.active_executions[i].state == ExecutionState::Running {
                    return None;
                }
                let ghost before = self.entries();
                assert(before[i as int].consistent());
                let entry = self.active_executions.remove(i);
                proof {
                    let after = self.entries();
                    assert(after =~= before.remove(i as int));
                    assert(distinct_ids(after)) by {
                        assert forall|a: int, b: int|
                            0 <= a < after.len() && 0 <= b < after.len() && a != b implies after[a].id()
                            != after[b].id() by {
                            let x = if a < i { a } else { a + 1 };
                            let y = if b < i { b } else { b + 1 };
                            assert(after[a] == before[x]);
                            assert(after[b] == before[y]);
                        }
                    }
                    assert forall|j: int| 0 <= j < after.len() implies (#[trigger] after[j]).consistent() by {
                        let x = if j < i { j } else { j + 1 };
                        assert(after[j] == before[x]);
                    }
                    assert forall|k: Seq<char>| #[trigger] self.lookup(k) == (if k == id@ {
                        None
                    } else {
                        old(self).lookup(k)
                    }) by {
                        lemma_find_from(before, k, 0);
                        lemma_find_from(after, k, 0);
                        match find_from(after, k, 0) {
                            Some(j) => {
                                let x = if j < i { j } else { j + 1 };
                                assert(after[j] == before[x]);
                                lemma_find_at(before, x);
                            },
                            None => {
                                match find_from(before, k, 0) {
                                    Some(x) => {
                                        if x != i {
                                            let j = if x < i { x } else { x - 1 };
                                            assert(after[j] == before[x]);
                                        }
                                    },
                                    None => {},
                                }
                            },
                        }
                    }
                }
                match entry.failure {
                    Some(e) => Some(Err(e)),
                    None => match entry.result {
                        Some(result) => Some(Ok(result)),
                        None => None,
                    },
                }
            },
            None => None,
        }
    }

    /// Takes the next line of the run `run` at time `now`: looks at the
    /// request for cancellation of the run's execution as the registry holds
    /// it, lets the run decide on the line, and records the progress that
    /// the line reports. The answer is what the caller does next; `Kill`
    /// once cancellation was requested.
    pub fn on_line(&mut self, run: &mut ProcessRun, line: String, now: i64) -> (action: LineAction)
        requires
            old(self).wf(),
        ensures
            final(self).wf(),
            final(self).denied() == old(self).denied(),
            final(self).same_but(old(self), old(run).execution_id@),
            final(run).deep_view() == old(run).deep_view().after_line(
                line@,
                cancel_flag(old(self).lookup(old(run).execution_id@)),
            ),
            action.deep_view() == old(run).deep_view().action_on(
                line@,
                cancel_flag(old(self).lookup(old(run).execution_id@)),
            ),
            final(self).lookup(old(run).execution_id@) == (match old(self).lookup(
                old(run).execution_id@,
            ) {
                Some(e) => Some(entry_on_line(e, old(run).deep_view(), line@, now)),
                None => None,
            }),
    {
        let cancel = self.is_cancelled(run.execution_id.as_str());
        let action = run.on_line(line, cancel);
        match &action {
            LineAction::Report(event) => {
                self.report_progress(run.execution_id.as_str(), event, now);
            },
            _ => {},
        }
        action
    }

    /// Takes it that the run `run` has waited for a line in vain: looks at
    /// the request for cancellation of the run's execution as the registry
    /// holds it. The answer is `Kill` once cancellation was requested, so
    /// that a child that prints nothing does not outlive its cancellation.
    pub fn on_wait(&self, run: &mut ProcessRun) -> (action: LineAction)
        requires
            self.wf(),
        ensures
            final(run).deep_view() == old(run).deep_view().after_wait(
                cancel_flag(self.lookup(old(run).execution_id@)),
            ),
            action.deep_view() == old(run).deep_view().action_on_wait(
                cancel_flag(self.lookup(old(run).execution_id@)),
            ),
    {
        let cancel = self.is_cancelled(run.execution_id.as_str());
        run.on_wait(cancel)
    }

    /// Takes the output of a run of the execution `execution_id` as it was
    /// recorded: the lines of standard output in their order, and how the
    /// process ended. Each line is handled as it would be while the process
    /// runs: the request for cancellation is looked at, progress is
    /// recorded in the registry, and the other lines are kept. Gives what
    /// the run amounts to.
    pub fn execute_script_internal(
        &mut self,
        execution_id: &str,
        lines: &Vec<String>,
        exit: &ProcessExit,
        started_at: i64,
        now: i64,
    ) -> (r: Result<ExecutionResult, ExecutionError>)
        requires
            old(self).wf(),
        ensures
            final(self).wf(),
            final(self).denied() == old(self).denied(),
            final(self).same_but(old(self), execution_id@),
            final(self).lookup(execution_id@) == (match old(self).lookup(execution_id@) {
                Some(e) => Some(entry_after(e, lines.deep_view(), lines.len() as int, now)),
                None => None,
            }),
            run_outcome_view(r) == run_after(
                fresh_run(execution_id@, started_at),
                lines.deep_view(),
                cancel_flag(old(self).lookup(execution_id@)),
                lines.len() as int,
            ).outcome(exit.success, exit.stderr.deep_view(), now),
    {
        let ghost held = self.lookup(execution_id@);
        let ghost flag = cancel_flag(held);
        let ghost all = lines.deep_view();
        let mut run = ProcessRun::start(String::from_str(execution_id), started_at);
        let mut i: usize = 0;
        while i < lines.len()
            invariant
                i <= lines.len(),
                all == lines.deep_view(),
                self.wf(),
                self.denied() == old(self).denied(),
                self.same_but(old(self), execution_id@),
                held == old(self).lookup(execution_id@),
                flag == cancel_flag(held),
                self.lookup(execution_id@) == (match held {
                    Some(e) => Some(entry_after(e, all, i as int, now)),
                    None => None,
                }),
                run.deep_view() == run_after(
                    fresh_run(execution_id@, started_at),
                    all,
                    flag,
                    i as int,
                ),
                run.cancelled ==> flag,
            decreases lines.len() - i,
        {
            proof {
                if held is Some {
                    lemma_entry_keeps_flag(held->Some_0, all, i as int, now);
                }
            }
            let ghost before_run = run.deep_view();
            let ghost before_registry = *self;
            assert(before_run.execution_id == execution_id@) by {
                lemma_run_keeps_identity(
                    fresh_run(execution_id@, started_at),
                    all,
                    flag,
                    i as int,
                );
            }
            assert(cancel_flag(self.lookup(execution_id@)) == flag);
            let action = self.on_line(&mut run, lines[i].clone(), now);
            assert(all[i as int] == lines[i as int]@);
            assert(action.deep_view() == before_run.action_on(all[i as int], flag));
            proof {
                assert forall|k: Seq<char>| k != execution_id@ implies #[trigger] self.lookup(k)
                    == old(self).lookup(k) by {
                    assert(self.lookup(k) == before_registry.lookup(k));
                }
                match action {
                    LineAction::Report(event) => {
                        assert(!flag);
                        assert(line_kind(all[i as int]) == OutputLineView::Progress(
                            Some(event.deep_view()),
                        ));
                    },
                    LineAction::Kill => {
                        assert(flag || before_run.cancelled);
                    },
                    LineAction::Continue => {
                        assert(!flag ==> !(line_kind(all[i as int]) matches OutputLineView::Progress(
                            Some(_),
                        )));
                    },
                }
            }
            i += 1;
        }
        run.finish(exit, now)
    }

    /// Runs a script on a table from the recorded output of its run, under
    /// the identifier `id`, begun at `started_at` and ended at `now`: checks
    /// the script against the deny-list, registers the execution, takes the
    /// recorded output, and records how the run ended, which is also what
    /// is returned. The record of the execution stays in the registry until
    /// it is reaped. A script that is refused is neither registered nor run.
    ///
    /// This is for output that was recorded under an earlier validation of
    /// the same script; whoever starts a process submits the script first
    /// and starts the process only once it was accepted.
    pub fn execute_script_as(
        &mut self,
        script: &Script,
        headers: &Vec<String>,
        rows: &Vec<Vec<String>>,
        lines: &Vec<String>,
        exit: &ProcessExit,
        id: String,
        started_at: i64,
        now: i64,
    ) -> (r: Result<ExecutionResult, ExecutionError>)
        requires
            old(self).wf(),
        ensures
            final(self).wf(),
            final(self).denied() == old(self).denied(),
            final(self).replayed(
                old(self),
                r,
                script.content@,
                rows.len(),
                lines.deep_view(),
                exit.success,
                exit.stderr.deep_view(),
                id@,
                started_at,
                now,
            ),
    {
        let key = id.clone();
        match self.submit_as(script, id, rows.len(), started_at) {
            Err(e) => {
                return Err(e);
            },
            Ok(()) => {},
        }
        let ghost registered = *self;
        let ghost begun = accepted(key@, rows.len(), started_at);
        let outcome = match encode_input(headers, rows) {
            Err(e) => Err(e),
            Ok(_) => self.execute_script_internal(key.as_str(), lines, exit, started_at, now),
        };
        proof {
            lemma_entry_keeps_flag(begun, lines.deep_view(), lines.len() as int, now);
            lemma_entry_keeps_state(begun, lines.deep_view(), lines.len() as int, now);
            assert forall|k: Seq<char>| k != key@ implies #[trigger] self.lookup(k) == old(
                self,
            ).lookup(k) by {
                assert(self.lookup(k) == registered.lookup(k));
            }
        }
        let ghost running = *self;
        let kept = match &outcome {
            Ok(result) => Ok(result.duplicate()),
            Err(e) => Err(e.duplicate()),
        };
        assert(run_outcome_view(kept) == run_outcome_view(outcome));
        let ended = self.complete(key.as_str(), kept);
        proof {
            assert forall|k: Seq<char>| k != key@ implies #[trigger] self.lookup(k) == old(
                self,
            ).lookup(k) by {
                assert(self.lookup(k) == running.lookup(k));
            }
        }
        outcome
    }

    /// Runs a script on a table from the recorded output of its run, under
    /// a fresh identifier and at the time that the clock gives; see
    /// [`ScriptExecutor::execute_script_as`]. The run ends no earlier than
    /// it began. The identifier is minted at random: should the registry
    /// hold it already, the script is refused, which cannot happen to an
    /// empty registry.
    pub fn execute_script(
        &mut self,
        script: &Script,
        headers: &Vec<String>,
        rows: &Vec<Vec<String>>,
        lines: &Vec<String>,
        exit: &ProcessExit,
    ) -> (r: Result<ExecutionResult, ExecutionError>)
        requires
            old(self).wf(),
        ensures
            final(self).wf(),
            final(self).denied() == old(self).denied(),
            exists|id: Seq<char>, started_at: i64, now: i64|
                started_at <= now && #[trigger] final(self).replayed(
                    old(self),
                    r,
                    script.content@,
                    rows.len(),
                    lines.deep_view(),
                    exit.success,
                    exit.stderr.deep_view(),
                    id,
                    started_at,
                    now,
                ),
            match first_match(old(self).denied(), script.content@, 0) {
                Some(i) => r is Err && names_pattern(r->Err_0, old(self).denied()[i])
                    && final(self).same_executions(old(self)),
                None => true,
            },
            any_match(old(self).denied(), script.content@) <==> r is Err
                && r->Err_0 is SecurityViolation,
            !any_match(old(self).denied(), script.content@) && (forall|id: Seq<char>| #[trigger]
                old(self).lookup(id) is None) ==> !(r is Err && r->Err_0 is IdInUse),
            !(r is Err && r->Err_0 is Cancelled),
            r is Ok ==> r->Ok_0.completed_at is Some && r->Ok_0.started_at
                <= r->Ok_0.completed_at->Some_0,
    {
        proof {
            lemma_first_match_is_first(old(self).denied(), script.content@, 0);
        }
        let id = fresh_id();
        let started_at = now_millis();
        let read = now_millis();
        let now = if read < started_at {
            started_at
        } else {
            read
        };
        let ghost key = id@;
        let r = self.execute_script_as(script, headers, rows, lines, exit, id, started_at, now);
        proof {
            lemma_run_keeps_identity(
                fresh_run(key, started_at),
                lines.deep_view(),
                false,
                lines.len() as int,
            );
            assert(self.replayed(
                old(self),
                r,
                script.content@,
                rows.len(),
                lines.deep_view(),
                exit.success,
                exit.stderr.deep_view(),
                key,
                started_at,
                now,
            ));
        }
        r
    }

    /// Turns error output of the interpreter into a message for the user.
    pub fn parse_python_error(stderr: &str) -> (message: String)
        ensures
            message@ == crate::ai_script::diagnosis::diagnosed_message(
                crate::ai_script::diagnosis::rule_table(),
                crate::text::lines_of(stderr@),
            ),
    {
        diagnose(stderr).message
    }

    /// Reads a result line and decodes it into its payload.
    pub fn parse_result(result_line: &str) -> (r: Result<ResultPayload, ExecutionError>)
        ensures
            crate::ai_script::interpreter::outcome_view(r)
                == crate::ai_script::interpreter::parsed_result(result_line@),
    {
        parse_result(result_line)
    }
}

/// Replacing one execution by one with the same identifier keeps the
/// identifiers distinct, and every execution where it was.
pub proof fn lemma_update_keeps_others(
    before: Seq<ActiveExecutionView>,
    after: Seq<ActiveExecutionView>,
    at: int,
)
    requires
        distinct_ids(before),
        0 <= at < before.len(),
        after.len() == before.len(),
        after[at].id() == before[at].id(),
        forall|j: int| 0 <= j < before.len() && j != at ==> after[j] == before[j],
    ensures
        distinct_ids(after),
        forall|k: Seq<char>| find_from(after, k, 0) == find_from(before, k, 0),
{
    assert forall|k: Seq<char>| find_from(after, k, 0) == find_from(before, k, 0) by {
        lemma_find_from(before, k, 0);
        lemma_find_from(after, k, 0);
    }
}

impl Default for ScriptExecutor {
    fn default() -> (executor: ScriptExecutor)
        ensures
            executor.wf(),
            forall|id: Seq<char>| #[trigger] executor.lookup(id) is None,
            executor.denied() == standard_patterns(),
            all_compile(deny_list()) ==> executor.denied() == deny_list(),
    {
        ScriptExecutor::new()
    }
}

/// An execution that has ended stays as it is: no transition is open to it.
pub proof fn lemma_terminal_states_are_final(state: ExecutionState, transition: Transition)
    requires
        is_terminal(state),
    ensures
        next_state(state, transition) is None,
{
}

/// A script that is refused fails without ever running: from `Pending`,
/// `Reject` leads to `Failed`, from where nothing leads on.
pub proof fn lemma_refused_never_runs(transition: Transition)
    ensures
        next_state(ExecutionState::Pending, Transition::Reject) == Some(ExecutionState::Failed),
        next_state(ExecutionState::Failed, transition) is None,
{
}

/// Whatever a run ends with, the execution is in a state that nothing
/// follows, and the state says how it ended: cancelled for a cancelled run,
/// failed for any other failure and for an error payload, completed for any
/// other payload.
pub proof fn lemma_outcome_is_terminal(held: ActiveExecutionView, outcome: Result<
    ExecutionResult,
    ExecutionError,
>)
    ensures
        is_terminal(held.ended_by(outcome).state),
        held.ended_by(outcome).consistent(),
        held.ended_by(outcome).state == ExecutionState::Cancelled <==> outcome
            == Err::<ExecutionResult, ExecutionError>(ExecutionError::Cancelled),
        held.ended_by(outcome).state == ExecutionState::Completed <==> outcome is Ok && !(
        outcome->Ok_0.result is Error),
{
}

impl ScriptExecutor {
    /// A script that no pattern denies, run from recorded output under an
    /// identifier that is free, by a process that exited with code 0: the
    /// run gives the payload of the
    /// last line that is JSON and no progress event, with no error and with
    /// the time at which it ended, and the execution is recorded as
    /// completed, or as failed where the payload is an error. A run without
    /// such a line fails for want of a result.
    pub proof fn lemma_accepted_replay_gives_the_last_result(
        &self,
        before: &ScriptExecutor,
        r: Result<ExecutionResult, ExecutionError>,
        script: Seq<char>,
        total_rows: usize,
        lines: Seq<Seq<char>>,
        stderr: Option<Seq<char>>,
        id: Seq<char>,
        started_at: i64,
        now: i64,
    )
        requires
            self.replayed(before, r, script, total_rows, lines, true, stderr, id, started_at, now),
            !any_match(before.denied(), script),
            before.lookup(id) is None,
        ensures
            match final_line(lines, lines.len() as int) {
                None => r == Err::<ExecutionResult, ExecutionError>(ExecutionError::NoResultFound),
                Some(line) => match parsed_result(line) {
                    Ok(payload) => {
                        &&& r is Ok
                        &&& r->Ok_0.deep_view() == (ExecutionResultView {
                            execution_id: id,
                            started_at,
                            completed_at: Some(now),
                            result: payload,
                            error: None,
                        })
                        &&& self.lookup(id) is Some
                        &&& self.lookup(id)->Some_0.result == Some(r->Ok_0.deep_view())
                        &&& self.lookup(id)->Some_0.state == (if payload is Error {
                            ExecutionState::Failed
                        } else {
                            ExecutionState::Completed
                        })
                    },
                    Err(e) => r == Err::<ExecutionResult, ExecutionError>(e),
                },
            },
    {
        lemma_first_match_is_first(before.denied(), script, 0);
        lemma_replay_gives_the_last_result(lines, stderr, id, started_at, now);
    }

    /// What the registry holds under an identifier is the execution of
    /// that identifier.
    pub proof fn lemma_lookup_is_own(&self, id: Seq<char>)
        requires
            self.wf(),
        ensures
            self.lookup(id) is Some ==> self.lookup(id)->Some_0.id() == id,
    {
        lemma_find_from(self.entries(), id, 0);
    }

    /// Executions do not interfere: under two different identifiers the
    /// registry holds two different executions, and the progress found under
    /// one is never that of the other.
    pub proof fn lemma_executions_are_apart(&self, a: Seq<char>, b: Seq<char>)
        requires
            self.wf(),
            a != b,
            self.lookup(a) is Some,
            self.lookup(b) is Some,
        ensures
            self.lookup(a)->Some_0.progress.execution_id == a,
            self.lookup(b)->Some_0.progress.execution_id == b,
            self.lookup(a)->Some_0.progress != self.lookup(b)->Some_0.progress,
    {
        self.lemma_lookup_is_own(a);
        self.lemma_lookup_is_own(b);
    }
}

} // verus!
