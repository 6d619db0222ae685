//! Transformations of a table, as lists of cell changes.
//!
//! A transformation does not touch the table. It reports, column by column
//! and within a column from the first row to the last, which cells would
//! change and to what. Normalizing, formatting numbers and filling with the
//! mean or the median compute with numbers that have a fractional part:
//! these are not carried out here.

use vstd::prelude::*;
use vstd::string::*;
use crate::ai::intent::{TargetScope, TargetScopeView, TransformOperation, TransformOperationView};
use crate::ai_script::models::{DataChange, DataChangeView};
use crate::csv_engine::cells::{new_value, value_for, CellRule, CellRuleView};
use crate::csv_engine::cleansing::{key_of, repeats_earlier, row_key};
use crate::csv_engine::table::{cell, get_cell};
use crate::text::{chars_eq, is_blank, lower, lowercase, str_eq, str_is_blank};

verus! {

/// Why a transformation gave no changes.
#[derive(Clone, Debug, PartialEq, Eq)]
pub enum TransformError {
    /// The table has no column of this name.
    ColumnNotFound { name: String },
    /// The table has none of the columns that were named.
    NoColumnsFound,
    /// The operation computes with numbers that have a fractional part.
    NotHere,
}

/// The mathematical value of a [`TransformError`].
pub enum TransformErrorView {
    ColumnNotFound { name: Seq<char> },
    NoColumnsFound,
    NotHere,
}

impl DeepView for TransformError {
    type V = TransformErrorView;

    open spec fn deep_view(&self) -> TransformErrorView {
        match self {
            TransformError::ColumnNotFound { name } => TransformErrorView::ColumnNotFound {
                name: name@,
            },
            TransformError::NoColumnsFound => TransformErrorView::NoColumnsFound,
            TransformError::NotHere => TransformErrorView::NotHere,
        }
    }
}

/// The first column at or after `from` whose header is `name`, letter case
/// apart.
pub open spec fn position_from(headers: Seq<Seq<char>>, name: Seq<char>, from: int) -> Option<int>
    decreases headers.len() - from,
{
    if from < 0 || from >= headers.len() {
        None
    } else if lowercase(headers[from]) == lowercase(name) {
        Some(from)
    } else {
        position_from(headers, name, from + 1)
    }
}

/// The columns of the first `upto` names that the table has, in the order
/// of the names.
pub open spec fn positions(headers: Seq<Seq<char>>, names: Seq<Seq<char>>, upto: int) -> Seq<usize>
    decreases upto,
{
    if upto <= 0 {
        Seq::empty()
    } else {
        let before = positions(headers, names, upto - 1);
        if upto <= names.len() && position_from(headers, names[upto - 1], 0) is Some {
            before.push(position_from(headers, names[upto - 1], 0)->Some_0 as usize)
        } else {
            before
        }
    }
}

/// The columns that a scope stands for.
pub open spec fn target_columns(headers: Seq<Seq<char>>, scope: TargetScopeView) -> Result<
    Seq<usize>,
    TransformErrorView,
> {
    match scope {
        TargetScopeView::AllData => Ok(Seq::new(headers.len(), |i: int| i as usize)),
        TargetScopeView::Column { name } => match position_from(headers, name, 0) {
            Some(i) => Ok(seq![i as usize]),
            None => Err(TransformErrorView::ColumnNotFound { name }),
        },
        TargetScopeView::Columns { names } => {
            let found = positions(headers, names, names.len() as int);
            if found.len() == 0 {
                Err(TransformErrorView::NoColumnsFound)
            } else {
                Ok(found)
            }
        },
        TargetScopeView::Selection { rows, columns } => Ok(columns),
    }
}

/// The change of the cell in row `row` and column `col`, if the rule gives
/// the cell a value other than the one it has.
pub open spec fn change_of(rule: CellRuleView, data: Seq<Seq<Seq<char>>>, row: int, col: int) -> Option<
    DataChangeView,
> {
    if cell(data, row, col) is Some && new_value(rule, data, row, col) is Some && new_value(
        rule,
        data,
        row,
        col,
    )->Some_0 != data[row][col] {
        Some(
            DataChangeView {
                row_index: row as usize,
                column_index: col as usize,
                old_value: data[row][col],
                new_value: new_value(rule, data, row, col)->Some_0,
            },
        )
    } else {
        None
    }
}

/// The changes in the first `upto` rows of column `col`.
pub open spec fn column_changes(rule: CellRuleView, data: Seq<Seq<Seq<char>>>, col: int, upto: int) -> Seq<
    DataChangeView,
>
    decreases upto,
{
    if upto <= 0 {
        Seq::empty()
    } else {
        let before = column_changes(rule, data, col, upto - 1);
        match change_of(rule, data, upto - 1, col) {
            Some(c) => before.push(c),
            None => before,
        }
    }
}

/// The changes in the first `upto` of the columns `columns`.
pub open spec fn changes_in(
    rule: CellRuleView,
    data: Seq<Seq<Seq<char>>>,
    columns: Seq<usize>,
    upto: int,
) -> Seq<DataChangeView>
    decreases upto,
{
    if upto <= 0 || upto > columns.len() {
        Seq::empty()
    } else {
        changes_in(rule, data, columns, upto - 1) + column_changes(
            rule,
            data,
            columns[upto - 1] as int,
            data.len() as int,
        )
    }
}

/// A rule changes a cell at most once: the changes in the first `upto` rows
/// of a column are no more than these rows, and each names a cell of the
/// column, the value that the cell holds, and another value.
pub proof fn lemma_column_changes_are_cells(
    rule: CellRuleView,
    data: Seq<Seq<Seq<char>>>,
    col: int,
    upto: int,
)
    requires
        0 <= upto <= data.len() <= usize::MAX,
        0 <= col <= usize::MAX,
    ensures
        column_changes(rule, data, col, upto).len() <= upto,
        forall|k: int|
            0 <= k < column_changes(rule, data, col, upto).len() ==> {
                let c = #[trigger] column_changes(rule, data, col, upto)[k];
                &&& c.column_index == col
                &&& c.row_index < upto
                &&& cell(data, c.row_index as int, col) == Some(c.old_value)
                &&& c.new_value != c.old_value
            },
    decreases upto,
{
    if upto > 0 {
        lemma_column_changes_are_cells(rule, data, col, upto - 1);
        let before = column_changes(rule, data, col, upto - 1);
        let all = column_changes(rule, data, col, upto);
        assert forall|k: int| 0 <= k < all.len() implies {
            let c = #[trigger] all[k];
            &&& c.column_index == col
            &&& c.row_index < upto
            &&& cell(data, c.row_index as int, col) == Some(c.old_value)
            &&& c.new_value != c.old_value
        } by {
            if k < before.len() {
                assert(all[k] == before[k]);
            }
        }
    }
}

/// A transformation by a rule on cells changes no more cells than the
/// target columns have.
pub proof fn lemma_changes_are_bounded(
    rule: CellRuleView,
    data: Seq<Seq<Seq<char>>>,
    columns: Seq<usize>,
    upto: int,
)
    requires
        0 <= upto <= columns.len(),
        data.len() <= usize::MAX,
    ensures
        changes_in(rule, data, columns, upto).len() <= upto * data.len(),
    decreases upto,
{
    if upto > 0 {
        lemma_changes_are_bounded(rule, data, columns, upto - 1);
        lemma_column_changes_are_cells(rule, data, columns[upto - 1] as int, data.len() as int);
        assert((upto - 1) * data.len() + data.len() == upto * data.len()) by (nonlinear_arith);
    } else {
        assert(0 * data.len() == 0) by (nonlinear_arith);
    }
}

/// How often the first `upto` rows hold `value` in column `col`.
pub open spec fn count_of(data: Seq<Seq<Seq<char>>>, col: int, value: Seq<char>, upto: int) -> nat
    decreases upto,
{
    if upto <= 0 {
        0
    } else if cell(data, upto - 1, col) == Some(value) {
        count_of(data, col, value, upto - 1) + 1
    } else {
        count_of(data, col, value, upto - 1)
    }
}

/// The value that column `col` holds most often, blank cells apart, as far
/// as the first `upto` rows show it; of several such values the one that
/// comes first.
pub open spec fn mode_upto(data: Seq<Seq<Seq<char>>>, col: int, upto: int) -> Option<Seq<char>>
    decreases upto,
{
    if upto <= 0 {
        None
    } else {
        let before = mode_upto(data, col, upto - 1);
        match cell(data, upto - 1, col) {
            Some(value) => if is_blank(value) {
                before
            } else {
                match before {
                    Some(best) => if count_of(data, col, value, data.len() as int) > count_of(
                        data,
                        col,
                        best,
                        data.len() as int,
                    ) {
                        Some(value)
                    } else {
                        Some(best)
                    },
                    None => Some(value),
                }
            },
            None => before,
        }
    }
}

/// The value that column `col` holds most often, blank cells apart.
pub open spec fn mode_of(data: Seq<Seq<Seq<char>>>, col: int) -> Option<Seq<char>> {
    mode_upto(data, col, data.len() as int)
}

/// The changes that fill the blank cells of the first `upto` of the columns
/// `columns`, each column with the value that it holds most often.
pub open spec fn mode_changes(data: Seq<Seq<Seq<char>>>, columns: Seq<usize>, upto: int) -> Seq<
    DataChangeView,
>
    decreases upto,
{
    if upto <= 0 || upto > columns.len() {
        Seq::empty()
    } else {
        let before = mode_changes(data, columns, upto - 1);
        match mode_of(data, columns[upto - 1] as int) {
            Some(m) => before + column_changes(
                CellRuleView::FillCustom(m),
                data,
                columns[upto - 1] as int,
                data.len() as int,
            ),
            None => before,
        }
    }
}

/// The mark that stands for the removal of a row.
pub open spec fn delete_mark() -> Seq<char> {
    "<<DELETE_ROW>>"@
}

/// The changes that mark the first `upto` cells of row `row` for removal.
pub open spec fn row_marks(data: Seq<Seq<Seq<char>>>, row: int, upto: int) -> Seq<DataChangeView>
    decreases upto,
{
    if upto <= 0 {
        Seq::empty()
    } else {
        row_marks(data, row, upto - 1).push(
            DataChangeView {
                row_index: row as usize,
                column_index: (upto - 1) as usize,
                old_value: data[row][upto - 1],
                new_value: delete_mark(),
            },
        )
    }
}

/// The changes that mark for removal every one of the first `upto` rows
/// that repeats an earlier row.
pub open spec fn repeat_marks(data: Seq<Seq<Seq<char>>>, upto: int) -> Seq<DataChangeView>
    decreases upto,
{
    if upto <= 0 || upto > data.len() {
        Seq::empty()
    } else if repeats_earlier(data, upto - 1) {
        repeat_marks(data, upto - 1) + row_marks(data, upto - 1, data[upto - 1].len() as int)
    } else {
        repeat_marks(data, upto - 1)
    }
}

/// The formats under which a date is read when dates are formatted, in the
/// order in which they are tried.
pub open spec fn date_patterns() -> Seq<Seq<char>> {
    seq!["%Y-%m-%d"@, "%Y/%m/%d"@, "%d-%m-%Y"@, "%d/%m/%Y"@, "%m/%d/%Y"@, "%Y%m%d"@, "%d.%m.%Y"@]
}

/// The format under which dates are written for the target format of a
/// request.
pub open spec fn output_format(target: Seq<char>) -> Seq<char> {
    if target == "DD/MM/YYYY"@ {
        "%d/%m/%Y"@
    } else if target == "MM/DD/YYYY"@ {
        "%m/%d/%Y"@
    } else {
        "%Y-%m-%d"@
    }
}

/// How an operation is carried out.
pub enum Way {
    /// By a rule on each cell of the target columns.
    Cells(CellRuleView),
    /// By filling each target column with the value that it holds most
    /// often.
    FillMode,
    /// By marking the rows that repeat an earlier row.
    MarkRepeats,
    /// Nothing changes.
    Nothing,
    /// Not here.
    NotHere,
}

/// How missing values are filled by a strategy.
pub open spec fn fill_way(strategy: Seq<char>) -> Way {
    if strategy == "mean"@ || strategy == "median"@ {
        Way::NotHere
    } else if strategy == "mode"@ {
        Way::FillMode
    } else if strategy == "zero"@ {
        Way::Cells(CellRuleView::FillCustom("0"@))
    } else if strategy == "forward"@ {
        Way::Cells(CellRuleView::FillForward)
    } else {
        Way::Nothing
    }
}

/// How an operation is carried out.
pub open spec fn way_of(operation: TransformOperationView) -> Way {
    match operation {
        TransformOperationView::Normalize => Way::NotHere,
        TransformOperationView::FormatDates { target_format } => Way::Cells(
            CellRuleView::Reformat {
                inputs: date_patterns(),
                output: output_format(target_format),
                trimmed: true,
            },
        ),
        TransformOperationView::FormatNumbers { decimal_places } => Way::NotHere,
        TransformOperationView::RemoveDuplicates => Way::MarkRepeats,
        TransformOperationView::FillMissing { strategy } => fill_way(strategy),
        TransformOperationView::Capitalize => Way::Cells(CellRuleView::Capitalize),
        TransformOperationView::Lowercase => Way::Cells(CellRuleView::Lowercase),
        TransformOperationView::Uppercase => Way::Cells(CellRuleView::Uppercase),
        TransformOperationView::Trim => Way::Cells(CellRuleView::Trim),
        TransformOperationView::Replace { from, to } => Way::Cells(CellRuleView::Replace(from, to)),
    }
}

/// The changes of a transformation. Removing duplicates looks at whole rows
/// and at no scope; every other operation first needs its target columns.
pub open spec fn transformed(
    operation: TransformOperationView,
    headers: Seq<Seq<char>>,
    data: Seq<Seq<Seq<char>>>,
    scope: TargetScopeView,
) -> Result<Seq<DataChangeView>, TransformErrorView> {
    match way_of(operation) {
        Way::MarkRepeats => Ok(repeat_marks(data, data.len() as int)),
        way => match target_columns(headers, scope) {
            Err(e) => Err(e),
            Ok(columns) => match way {
                Way::Cells(rule) => Ok(changes_in(rule, data, columns, columns.len() as int)),
                Way::FillMode => Ok(mode_changes(data, columns, columns.len() as int)),
                Way::Nothing => Ok(Seq::empty()),
                _ => Err(TransformErrorView::NotHere),
            },
        },
    }
}

/// Whether a change speaks of a cell of the table and names the value that
/// the cell holds.
pub open spec fn within(data: Seq<Seq<Seq<char>>>, change: DataChangeView) -> bool {
    cell(data, change.row_index as int, change.column_index as int) == Some(change.old_value)
}

/// Whether every change speaks of a cell of the table and names the value
/// that the cell holds.
pub open spec fn all_within(data: Seq<Seq<Seq<char>>>, changes: Seq<DataChangeView>) -> bool {
    forall|k: int| 0 <= k < changes.len() ==> within(data, #[trigger] changes[k])
}

/// Whether the table is one that the machine can hold: its rows and the
/// cells of each row can be counted in indices.
pub open spec fn countable(data: Seq<Seq<Seq<char>>>) -> bool {
    &&& data.len() <= usize::MAX
    &&& forall|row: int| 0 <= row < data.len() ==> (#[trigger] data[row]).len() <= usize::MAX
}

proof fn lemma_within_joined(
    data: Seq<Seq<Seq<char>>>,
    a: Seq<DataChangeView>,
    b: Seq<DataChangeView>,
)
    requires
        all_within(data, a),
        all_within(data, b),
    ensures
        all_within(data, a + b),
{
    assert forall|k: int| 0 <= k < (a + b).len() implies within(data, #[trigger] (a + b)[k]) by {
        if k < a.len() {
            assert((a + b)[k] == a[k]);
        } else {
            assert((a + b)[k] == b[k - a.len()]);
        }
    }
}

proof fn lemma_column_changes_within(
    rule: CellRuleView,
    data: Seq<Seq<Seq<char>>>,
    col: usize,
)
    requires
        countable(data),
    ensures
        all_within(data, column_changes(rule, data, col as int, data.len() as int)),
{
    lemma_column_changes_are_cells(rule, data, col as int, data.len() as int);
}

proof fn lemma_changes_in_within(
    rule: CellRuleView,
    data: Seq<Seq<Seq<char>>>,
    columns: Seq<usize>,
    upto: int,
)
    requires
        countable(data),
    ensures
        all_within(data, changes_in(rule, data, columns, upto)),
    decreases upto,
{
    if 0 < upto <= columns.len() {
        lemma_changes_in_within(rule, data, columns, upto - 1);
        lemma_column_changes_within(rule, data, columns[upto - 1]);
        lemma_within_joined(
            data,
            changes_in(rule, data, columns, upto - 1),
            column_changes(rule, data, columns[upto - 1] as int, data.len() as int),
        );
    }
}

proof fn lemma_mode_changes_within(data: Seq<Seq<Seq<char>>>, columns: Seq<usize>, upto: int)
    requires
        countable(data),
    ensures
        all_within(data, mode_changes(data, columns, upto)),
    decreases upto,
{
    if 0 < upto <= columns.len() {
        lemma_mode_changes_within(data, columns, upto - 1);
        match mode_of(data, columns[upto - 1] as int) {
            Some(m) => {
                lemma_column_changes_within(CellRuleView::FillCustom(m), data, columns[upto - 1]);
                lemma_within_joined(
                    data,
                    mode_changes(data, columns, upto - 1),
                    column_changes(
                        CellRuleView::FillCustom(m),
                        data,
                        columns[upto - 1] as int,
                        data.len() as int,
                    ),
                );
            },
            None => {},
        }
    }
}

proof fn lemma_row_marks_within(data: Seq<Seq<Seq<char>>>, row: int, upto: int)
    requires
        countable(data),
        0 <= row < data.len(),
        upto <= data[row].len(),
    ensures
        all_within(data, row_marks(data, row, upto)),
    decreases upto,
{
    if upto > 0 {
        lemma_row_marks_within(data, row, upto - 1);
        let before = row_marks(data, row, upto - 1);
        let all = row_marks(data, row, upto);
        assert forall|k: int| 0 <= k < all.len() implies within(data, #[trigger] all[k]) by {
            if k < before.len() {
                assert(all[k] == before[k]);
            }
        }
    }
}

proof fn lemma_repeat_marks_within(data: Seq<Seq<Seq<char>>>, upto: int)
    requires
        countable(data),
    ensures
        all_within(data, repeat_marks(data, upto)),
    decreases upto,
{
    if 0 < upto <= data.len() {
        lemma_repeat_marks_within(data, upto - 1);
        if repeats_earlier(data, upto - 1) {
            lemma_row_marks_within(data, upto - 1, data[upto - 1].len() as int);
            lemma_within_joined(
                data,
                repeat_marks(data, upto - 1),
                row_marks(data, upto - 1, data[upto - 1].len() as int),
            );
        }
    }
}

/// Every change of a transformation lies within the table: it speaks of a
/// cell that the table has, and names as the old value the value that the
/// cell holds.
pub proof fn lemma_changes_lie_within_the_table(
    operation: TransformOperationView,
    headers: Seq<Seq<char>>,
    data: Seq<Seq<Seq<char>>>,
    scope: TargetScopeView,
)
    requires
        countable(data),
    ensures
        match transformed(operation, headers, data, scope) {
            Ok(changes) => all_within(data, changes),
            Err(e) => true,
        },
{
    match way_of(operation) {
        Way::MarkRepeats => {
            lemma_repeat_marks_within(data, data.len() as int);
        },
        way => match target_columns(headers, scope) {
            Err(e) => {},
            Ok(columns) => match way {
                Way::Cells(rule) => {
                    lemma_changes_in_within(rule, data, columns, columns.len() as int);
                },
                Way::FillMode => {
                    lemma_mode_changes_within(data, columns, columns.len() as int);
                },
                _ => {},
            },
        },
    }
}

/// The view of the outcome of a transformation.
pub open spec fn changes_view(r: Result<Vec<DataChange>, TransformError>) -> Result<
    Seq<DataChangeView>,
    TransformErrorView,
> {
    match r {
        Ok(changes) => Ok(changes.deep_view()),
        Err(e) => Err(e.deep_view()),
    }
}

/// The view of the outcome of finding the target columns.
pub open spec fn columns_view(r: Result<Vec<usize>, TransformError>) -> Result<
    Seq<usize>,
    TransformErrorView,
> {
    match r {
        Ok(columns) => Ok(columns.deep_view()),
        Err(e) => Err(e.deep_view()),
    }
}

/// The transformer of data.
#[derive(Debug)]
pub struct DataTransformer;

impl DataTransformer {
    /// A transformer.
    pub fn new() -> (transformer: DataTransformer) {
        DataTransformer
    }

    /// The first column whose header is `name`, letter case apart.
    pub fn find_column(headers: &[String], name: &str) -> (r: Option<usize>)
        ensures
            match r {
                Some(i) => i < headers.len() && position_from(headers.deep_view(), name@, 0)
                    == Some(i as int),
                None => position_from(headers.deep_view(), name@, 0) is None,
            },
    {
        let wanted = lower(name);
        let mut i: usize = 0;
        while i < headers.len()
            invariant
                i <= headers.len(),
                wanted@ == lowercase(name@),
                position_from(headers.deep_view(), name@, 0) == position_from(
                    headers.deep_view(),
                    name@,
                    i as int,
                ),
            decreases headers.len() - i,
        {
            let header = lower(headers[i].as_str());
            if str_eq(header.as_str(), wanted.as_str()) {
                return Some(i);
            }
            i += 1;
        }
        None
    }

    /// The columns that a scope stands for.
    pub fn get_target_column_indices(&self, headers: &[String], scope: &TargetScope) -> (r:
        Result<Vec<usize>, TransformError>)
        ensures
            columns_view(r) == target_columns(headers.deep_view(), scope.deep_view()),
    {
        match scope {
            TargetScope::AllData => {
                let mut all: Vec<usize> = Vec::new();
                let mut i: usize = 0;
                while i < headers.len()
                    invariant
                        i <= headers.len(),
                        all.len() == i,
                        forall|k: int| 0 <= k < i ==> all[k] == k,
                    decreases headers.len() - i,
                {
                    all.push(i);
                    i += 1;
                }
                assert(all.deep_view() =~= Seq::new(
                    headers.deep_view().len(),
                    |i: int| i as usize,
                ));
                Ok(all)
            },
            TargetScope::Column { name } => match DataTransformer::find_column(
                headers,
                name.as_str(),
            ) {
                Some(i) => {
                    let one: Vec<usize> = vec![i];
                    assert(one.deep_view() =~= seq![i]);
                    Ok(one)
                },
                None => Err(TransformError::ColumnNotFound { name: name.clone() }),
            },
            TargetScope::Columns { names } => {
                let mut found: Vec<usize> = Vec::new();
                let mut k: usize = 0;
                assert(found.deep_view() =~= positions(headers.deep_view(), names.deep_view(), 0));
                while k < names.len()
                    invariant
                        k <= names.len(),
                        found.deep_view() == positions(
                            headers.deep_view(),
                            names.deep_view(),
                            k as int,
                        ),
                    decreases names.len() - k,
                {
                    let ghost before = found.deep_view();
                    assert(names.deep_view()[k as int] == names[k as int]@);
                    if let Some(i) = DataTransformer::find_column(headers, names[k].as_str()) {
                        found.push(i);
                        assert(found.deep_view() =~= before.push(i));
                    }
                    k += 1;
                }
                if found.len() == 0 {
                    Err(TransformError::NoColumnsFound)
                } else {
                    Ok(found)
                }
            },
            TargetScope::Selection { rows, columns } => {
                let copy = columns.clone();
                assert(copy.deep_view() =~= columns.deep_view());
                Ok(copy)
            },
        }
    }

    /// Appends the changes of column `col` by `rule`.
    fn collect_column(rows: &[Vec<String>], col: usize, rule: &CellRule, changes: &mut Vec<DataChange>)
        ensures
            final(changes).deep_view() == old(changes).deep_view() + column_changes(
                rule.model(),
                rows.deep_view(),
                col as int,
                rows.len() as int,
            ),
    {
        let ghost start = changes.deep_view();
        let ghost data = rows.deep_view();
        let mut row: usize = 0;
        assert(changes.deep_view() =~= start + column_changes(rule.model(), data, col as int, 0));
        while row < rows.len()
            invariant
                row <= rows.len(),
                data == rows.deep_view(),
                changes.deep_view() == start + column_changes(
                    rule.model(),
                    data,
                    col as int,
                    row as int,
                ),
            decreases rows.len() - row,
        {
            let ghost so_far = changes.deep_view();
            if col < rows[row].len() {
                assert(data[row as int][col as int] == rows[row as int][col as int]@);
                if let Some(value) = value_for(rule, rows, row, col) {
                    if !str_eq(value.as_str(), rows[row][col].as_str()) {
                        let change = DataChange {
                            row_index: row,
                            column_index: col,
                            old_value: rows[row][col].clone(),
                            new_value: value,
                        };
                        changes.push(change);
                        assert(changes.deep_view() =~= so_far.push(change.deep_view()));
                    }
                }
            }
            row += 1;
            assert(changes.deep_view() =~= start + column_changes(
                rule.model(),
                data,
                col as int,
                row as int,
            ));
        }
    }

    /// The changes of the columns `columns` by `rule`.
    pub fn collect(rows: &[Vec<String>], columns: &Vec<usize>, rule: &CellRule) -> (changes: Vec<
        DataChange,
    >)
        ensures
            changes.deep_view() == changes_in(
                rule.model(),
                rows.deep_view(),
                columns.deep_view(),
                columns.len() as int,
            ),
    {
        let mut changes: Vec<DataChange> = Vec::new();
        let mut k: usize = 0;
        assert(changes.deep_view() =~= changes_in(
            rule.model(),
            rows.deep_view(),
            columns.deep_view(),
            0,
        ));
        while k < columns.len()
            invariant
                k <= columns.len(),
                changes.deep_view() == changes_in(
                    rule.model(),
                    rows.deep_view(),
                    columns.deep_view(),
                    k as int,
                ),
            decreases columns.len() - k,
        {
            assert(columns.deep_view()[k as int] == columns[k as int]);
            DataTransformer::collect_column(rows, columns[k], rule, &mut changes);
            k += 1;
        }
        changes
    }

    /// How often column `col` holds `value`.
    fn count(rows: &[Vec<String>], col: usize, value: &String) -> (n: usize)
        ensures
            n == count_of(rows.deep_view(), col as int, value@, rows.len() as int),
    {
        let mut n: usize = 0;
        let mut row: usize = 0;
        while row < rows.len()
            invariant
                row <= rows.len(),
                n == count_of(rows.deep_view(), col as int, value@, row as int),
                n <= row,
            decreases rows.len() - row,
        {
            let same = match get_cell(rows, row, col) {
                Some(other) => str_eq(other.as_str(), value.as_str()),
                None => false,
            };
            if same {
                n += 1;
            }
            row += 1;
        }
        n
    }

    /// The value that column `col` holds most often, blank cells apart; of
    /// several such values the one that comes first.
    pub fn calculate_mode(&self, rows: &[Vec<String>], col_idx: usize) -> (r: Option<String>)
        ensures
            r.deep_view() == mode_of(rows.deep_view(), col_idx as int),
    {
        let mut best: Option<(usize, usize)> = None;
        let mut row: usize = 0;
        while row < rows.len()
            invariant
                row <= rows.len(),
                match best {
                    Some((at, n)) => at < row && col_idx < rows[at as int].len() && mode_upto(
                        rows.deep_view(),
                        col_idx as int,
                        row as int,
                    ) == Some(rows[at as int][col_idx as int]@) && n == count_of(
                        rows.deep_view(),
                        col_idx as int,
                        rows[at as int][col_idx as int]@,
                        rows.len() as int,
                    ),
                    None => mode_upto(rows.deep_view(), col_idx as int, row as int) is None,
                },
            decreases rows.len() - row,
        {
            if let Some(value) = get_cell(rows, row, col_idx) {
                if !str_is_blank(value.as_str()) {
                    let n = DataTransformer::count(rows, col_idx, value);
                    best = match best {
                        Some((at, most)) => if n > most {
                            Some((row, n))
                        } else {
                            Some((at, most))
                        },
                        None => Some((row, n)),
                    };
                }
            }
            row += 1;
        }
        match best {
            Some((at, _)) => Some(rows[at][col_idx].clone()),
            None => None,
        }
    }

    /// The changes that fill the blank cells of each target column with the
    /// value that the column holds most often.
    fn fill_with_mode(&self, rows: &[Vec<String>], columns: &Vec<usize>) -> (changes: Vec<
        DataChange,
    >)
        ensures
            changes.deep_view() == mode_changes(
                rows.deep_view(),
                columns.deep_view(),
                columns.len() as int,
            ),
    {
        let mut changes: Vec<DataChange> = Vec::new();
        let mut k: usize = 0;
        assert(changes.deep_view() =~= mode_changes(rows.deep_view(), columns.deep_view(), 0));
        while k < columns.len()
            invariant
                k <= columns.len(),
                changes.deep_view() == mode_changes(
                    rows.deep_view(),
                    columns.deep_view(),
                    k as int,
                ),
            decreases columns.len() - k,
        {
            assert(columns.deep_view()[k as int] == columns[k as int]);
            if let Some(mode) = self.calculate_mode(rows, columns[k]) {
                let rule = CellRule::FillCustom(mode);
                DataTransformer::collect_column(rows, columns[k], &rule, &mut changes);
            }
            k += 1;
        }
        changes
    }

    /// The changes that mark for removal every row that repeats an earlier
    /// row. Rows are compared by their cells joined with bars.
    pub fn remove_duplicates(&self, rows: &[Vec<String>]) -> (changes: Vec<DataChange>)
        ensures
            changes.deep_view() == repeat_marks(rows.deep_view(), rows.len() as int),
    {
        let ghost data = rows.deep_view();
        let mut keys: Vec<Vec<char>> = Vec::new();
        let mut changes: Vec<DataChange> = Vec::new();
        let mut row: usize = 0;
        assert(changes.deep_view() =~= repeat_marks(data, 0));
        while row < rows.len()
            invariant
                row <= rows.len(),
                data == rows.deep_view(),
                keys.len() == row,
                forall|k: int| 0 <= k < row ==> (#[trigger] keys[k])@ == row_key(data[k]),
                changes.deep_view() == repeat_marks(data, row as int),
            decreases rows.len() - row,
        {
            let key = key_of(&rows[row]);
            let mut seen = false;
            let mut k: usize = 0;
            while k < row
                invariant
                    k <= row == keys.len(),
                    row < rows.len(),
                    data == rows.deep_view(),
                    key@ == row_key(data[row as int]),
                    forall|j: int| 0 <= j < row ==> (#[trigger] keys[j])@ == row_key(data[j]),
                    seen == (exists|j: int|
                        0 <= j < k && row_key(#[trigger] data[j]) == row_key(data[row as int])),
                decreases row - k,
            {
                if chars_eq(&keys[k], &key) {
                    seen = true;
                }
                k += 1;
            }
            assert(seen == repeats_earlier(data, row as int));
            if seen {
                let ghost before = changes.deep_view();
                let mut col: usize = 0;
                assert(changes.deep_view() =~= before + row_marks(data, row as int, 0));
                while col < rows[row].len()
                    invariant
                        row < rows.len(),
                        col <= rows[row as int].len(),
                        data == rows.deep_view(),
                        changes.deep_view() == before + row_marks(data, row as int, col as int),
                    decreases rows[row as int].len() - col,
                {
                    let ghost so_far = changes.deep_view();
                    let change = DataChange {
                        row_index: row,
                        column_index: col,
                        old_value: rows[row][col].clone(),
                        new_value: String::from_str("<<DELETE_ROW>>"),
                    };
                    changes.push(change);
                    assert(changes.deep_view() =~= so_far.push(change.deep_view()));
                    col += 1;
                    assert(changes.deep_view() =~= before + row_marks(
                        data,
                        row as int,
                        col as int,
                    ));
                }
            }
            keys.push(key);
            row += 1;
        }
        changes
    }

    /// The changes that an operation makes to the rows, within a scope.
    pub fn transform(
        &self,
        operation: &TransformOperation,
        headers: &[String],
        rows: &[Vec<String>],
        scope: &TargetScope,
    ) -> (r: Result<Vec<DataChange>, TransformError>)
        ensures
            changes_view(r) == transformed(
                operation.deep_view(),
                headers.deep_view(),
                rows.deep_view(),
                scope.deep_view(),
            ),
    {
        if let TransformOperation::RemoveDuplicates = operation {
            return Ok(self.remove_duplicates(rows));
        }
        let columns = match self.get_target_column_indices(headers, scope) {
            Ok(columns) => columns,
            Err(e) => {
                return Err(e);
            },
        };
        match operation {
            TransformOperation::Normalize => Err(TransformError::NotHere),
            TransformOperation::FormatNumbers { .. } => Err(TransformError::NotHere),
            TransformOperation::RemoveDuplicates => Ok(self.remove_duplicates(rows)),
            TransformOperation::FormatDates { target_format } => {
                let inputs: Vec<&'static str> = vec![
                    "%Y-%m-%d",
                    "%Y/%m/%d",
                    "%d-%m-%Y",
                    "%d/%m/%Y",
                    "%m/%d/%Y",
                    "%Y%m%d",
                    "%d.%m.%Y",
                ];
                assert(inputs.deep_view() =~= date_patterns());
                let output: &'static str = if str_eq(target_format.as_str(), "DD/MM/YYYY") {
                    "%d/%m/%Y"
                } else if str_eq(target_format.as_str(), "MM/DD/YYYY") {
                    "%m/%d/%Y"
                } else {
                    "%Y-%m-%d"
                };
                let rule = CellRule::Reformat { inputs, output, trimmed: true };
                Ok(DataTransformer::collect(rows, &columns, &rule))
            },
            TransformOperation::FillMissing { strategy } => {
                let strategy = strategy.as_str();
                if str_eq(strategy, "mean") || str_eq(strategy, "median") {
                    Err(TransformError::NotHere)
                } else if str_eq(strategy, "mode") {
                    Ok(self.fill_with_mode(rows, &columns))
                } else if str_eq(strategy, "zero") {
                    let rule = CellRule::FillCustom(String::from_str("0"));
                    Ok(DataTransformer::collect(rows, &columns, &rule))
                } else if str_eq(strategy, "forward") {
                    Ok(DataTransformer::collect(rows, &columns, &CellRule::FillForward))
                } else {
                    let none: Vec<DataChange> = Vec::new();
                    assert(none.deep_view() =~= Seq::empty());
                    Ok(none)
                }
            },
            TransformOperation::Capitalize => Ok(
                DataTransformer::collect(rows, &columns, &CellRule::Capitalize),
            ),
            TransformOperation::Lowercase => Ok(
                DataTransformer::collect(rows, &columns, &CellRule::Lowercase),
            ),
            TransformOperation::Uppercase => Ok(
                DataTransformer::collect(rows, &columns, &CellRule::Uppercase),
            ),
            TransformOperation::Trim => Ok(DataTransformer::collect(rows, &columns, &CellRule::Trim)),
            TransformOperation::Replace { from, to } => {
                let rule = CellRule::Replace(from.clone(), to.clone());
                Ok(DataTransformer::collect(rows, &columns, &rule))
            },
        }
    }
}

impl TransformError {
    /// The message of the failure.
    pub open spec fn message_of(self) -> Seq<char> {
        match self {
            TransformError::ColumnNotFound { name } => "Column '"@ + name@ + "' not found"@,
            TransformError::NoColumnsFound => "None of the specified columns were found"@,
            TransformError::NotHere => "The operation needs arithmetic on fractional numbers"@,
        }
    }

    /// The message of the failure.
    pub fn message(&self) -> (m: String)
        ensures
            m@ == self.message_of(),
    {
        match self {
            TransformError::ColumnNotFound { name } => {
                let mut m = String::from_str("Column '");
                m.append(name.as_str());
                m.append("' not found");
                m
            },
            TransformError::NoColumnsFound => String::from_str(
                "None of the specified columns were found",
            ),
            TransformError::NotHere => String::from_str(
                "The operation needs arithmetic on fractional numbers",
            ),
        }
    }
}

} // verus!
