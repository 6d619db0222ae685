//! The progress of one execution.

use vstd::prelude::*;
use vstd::string::*;
use crate::ai_script::host::now_millis;

verus! {

/// How far an execution has come. Only what the child process reports is
/// recorded: nothing keeps the counts from going down.
#[derive(Clone, Debug, PartialEq, Eq)]
pub struct ExecutionProgress {
    pub execution_id: String,
    pub processed_rows: usize,
    pub total_rows: usize,
    pub current_step: String,
    pub estimated_remaining_seconds: Option<u64>,
    /// Milliseconds since the Unix epoch.
    pub started_at: i64,
    /// Milliseconds since the Unix epoch.
    pub last_updated: i64,
}

/// The mathematical value of an [`ExecutionProgress`].
pub struct ExecutionProgressView {
    pub execution_id: Seq<char>,
    pub processed_rows: usize,
    pub total_rows: usize,
    pub current_step: Seq<char>,
    pub estimated_remaining_seconds: Option<u64>,
    pub started_at: i64,
    pub last_updated: i64,
}

impl DeepView for ExecutionProgress {
    type V = ExecutionProgressView;

    open spec fn deep_view(&self) -> ExecutionProgressView {
        ExecutionProgressView {
            execution_id: self.execution_id@,
            processed_rows: self.processed_rows,
            total_rows: self.total_rows,
            current_step: self.current_step@,
            estimated_remaining_seconds: self.estimated_remaining_seconds,
            started_at: self.started_at,
            last_updated: self.last_updated,
        }
    }
}

/// The share of the rows that are processed, in percent, rounded down:
/// `processed / total * 100`, and 0 where there are no rows.
pub open spec fn percent_of(processed: int, total: int) -> int {
    if total <= 0 {
        0
    } else {
        processed * 100 / total
    }
}

/// The progress of an execution that has just begun, at time `now`.
pub open spec fn initial_progress(
    execution_id: Seq<char>,
    total_rows: usize,
    now: i64,
) -> ExecutionProgressView {
    ExecutionProgressView {
        execution_id,
        processed_rows: 0,
        total_rows,
        current_step: "Initializing"@,
        estimated_remaining_seconds: None,
        started_at: now,
        last_updated: now,
    }
}

impl ExecutionProgressView {
    /// The progress after a report of `processed` rows in step `step`, at
    /// time `now`.
    pub open spec fn updated(self, processed: usize, step: Seq<char>, now: i64) -> Self {
        ExecutionProgressView {
            processed_rows: processed,
            current_step: step,
            last_updated: now,
            ..self
        }
    }

    /// The share of the rows that are processed, in percent, rounded down.
    pub open spec fn percent(self) -> int {
        percent_of(self.processed_rows as int, self.total_rows as int)
    }
}

impl ExecutionProgress {
    /// The progress of an execution that begins at time `now`.
    pub fn new_at(execution_id: String, total_rows: usize, now: i64) -> (p: ExecutionProgress)
        ensures
            p.deep_view() == initial_progress(execution_id@, total_rows, now),
            p.deep_view().percent() == 0,
    {
        ExecutionProgress {
            execution_id,
            processed_rows: 0,
            total_rows,
            current_step: String::from_str("Initializing"),
            estimated_remaining_seconds: None,
            started_at: now,
            last_updated: now,
        }
    }

    /// The progress of an execution that begins now.
    pub fn new(execution_id: String, total_rows: usize) -> (p: ExecutionProgress)
        ensures
            p.deep_view() == initial_progress(execution_id@, total_rows, p.started_at),
    {
        ExecutionProgress::new_at(execution_id, total_rows, now_millis())
    }

    /// Records a report of `processed` rows in step `step`, at time `now`.
    pub fn update_at(&mut self, processed: usize, step: String, now: i64)
        ensures
            final(self).deep_view() == old(self).deep_view().updated(processed, step@, now),
    {
        self.processed_rows = processed;
        self.current_step = step;
        self.last_updated = now;
    }

    /// Records a report of `processed` rows in step `step`, made now.
    pub fn update(&mut self, processed: usize, step: String)
        ensures
            final(self).deep_view() == old(self).deep_view().updated(
                processed,
                step@,
                final(self).last_updated,
            ),
    {
        self.update_at(processed, step, now_millis());
    }

    /// The share of the rows that are processed, in percent, rounded down.
    pub fn percent(&self) -> (p: u128)
        ensures
            p == self.deep_view().percent(),
    {
        if self.total_rows == 0 {
            0
        } else {
            let done: u128 = self.processed_rows as u128;
            let all: u128 = self.total_rows as u128;
            assert(done * 100 <= u128::MAX) by (nonlinear_arith)
                requires
                    done <= 0xffff_ffff_ffff_ffff,
            ;
            done * 100 / all
        }
    }

    /// A copy of the record.
    pub fn duplicate(&self) -> (copy: ExecutionProgress)
        ensures
            copy.deep_view() == self.deep_view(),
    {
        ExecutionProgress {
            execution_id: self.execution_id.clone(),
            processed_rows: self.processed_rows,
            total_rows: self.total_rows,
            current_step: self.current_step.clone(),
            estimated_remaining_seconds: self.estimated_remaining_seconds,
            started_at: self.started_at,
            last_updated: self.last_updated,
        }
    }
}

/// The percentage lies between 0 and 100 while no more rows are processed
/// than there are; it is 100 when all are, and 0 where there are none.
pub proof fn lemma_percent_range(processed: int, total: int)
    requires
        0 <= processed <= total,
    ensures
        0 <= percent_of(processed, total) <= 100,
        total > 0 ==> percent_of(total, total) == 100,
        percent_of(0, total) == 0,
        percent_of(processed, 0) == 0,
{
    if total > 0 {
        assert(processed * 100 / total <= 100) by (nonlinear_arith)
            requires
                0 <= processed <= total,
                total > 0,
        ;
        assert(processed * 100 / total >= 0) by (nonlinear_arith)
            requires
                0 <= processed,
                total > 0,
        ;
        assert(total * 100 / total == 100) by (nonlinear_arith)
            requires
                total > 0,
        ;
    }
}

} // verus!
