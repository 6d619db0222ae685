//! Cleansing of a table in place.
//!
//! Most actions rewrite cells one by one: each selected cell gets the value
//! that the action gives it, and every cell that changes is reported. Rows
//! are read from the first to the last, the cells of a row from left to
//! right. Removing duplicates drops rows instead.
//!
//! Three things need arithmetic on numbers with a fractional part, which
//! this library does not do: filling with the mean of a column, writing
//! numbers in a standard form, and removing outliers. For these `cleanse`
//! returns nothing and leaves the table as it is.

use vstd::prelude::*;
use vstd::string::*;
use crate::csv_engine::cells::{new_value, value_for, CellRule, CellRuleView};
use crate::csv_engine::table::{get_param, param};
use crate::pattern::{compile, pattern_compiles};
use crate::text::{chars_eq, join_chars, joined, str_eq, to_chars, views};

verus! {

/// What to do to the table.
#[derive(Clone, Copy, Debug, PartialEq, Eq, Structural)]
pub enum CleansingAction {
    TrimWhitespace,
    RemoveDuplicates,
    FillMissingValues,
    StandardizeFormat,
    RemoveOutliers,
    NormalizeText,
}

/// An action, the columns it is limited to, and its named parameters. A
/// later parameter replaces an earlier one of the same name.
#[derive(Clone, Debug, PartialEq, Eq)]
pub struct CleansingOptions {
    pub action: CleansingAction,
    pub column_indices: Option<Vec<usize>>,
    pub parameters: Vec<(String, String)>,
}

/// One cell that was changed.
#[derive(Clone, Debug, PartialEq, Eq)]
pub struct ModificationDetail {
    pub row_index: usize,
    pub column_index: usize,
    pub old_value: String,
    pub new_value: String,
}

/// The mathematical value of a [`ModificationDetail`].
pub struct ModificationView {
    pub row_index: usize,
    pub column_index: usize,
    pub old_value: Seq<char>,
    pub new_value: Seq<char>,
}

impl DeepView for ModificationDetail {
    type V = ModificationView;

    open spec fn deep_view(&self) -> ModificationView {
        ModificationView {
            row_index: self.row_index,
            column_index: self.column_index,
            old_value: self.old_value@,
            new_value: self.new_value@,
        }
    }
}

/// What an action did.
#[derive(Clone, Debug, PartialEq, Eq)]
pub struct CleansingResult {
    /// The rows that were removed, or else the cells that were changed.
    pub rows_affected: usize,
    /// The cells that were changed.
    pub cells_modified: usize,
    /// The cells that were changed, in the order in which they were read.
    pub modifications: Vec<ModificationDetail>,
}

/// Whether column `col` is selected: all columns are where none is named.
pub open spec fn selected(columns: Option<Seq<usize>>, col: int) -> bool {
    columns is None || exists|k: int|
        0 <= k < columns->Some_0.len() && (#[trigger] columns->Some_0[k]) as int == col
}

/// The new value of a cell that changes; nothing for a cell that stays.
pub open spec fn change_at(
    rule: CellRuleView,
    columns: Option<Seq<usize>>,
    data: Seq<Seq<Seq<char>>>,
    row: int,
    col: int,
) -> Option<Seq<char>> {
    if selected(columns, col) && new_value(rule, data, row, col) is Some && new_value(
        rule,
        data,
        row,
        col,
    )->Some_0 != data[row][col] {
        new_value(rule, data, row, col)
    } else {
        None
    }
}

/// The cell in row `row` and column `col` after the action.
pub open spec fn value_after(
    rule: CellRuleView,
    columns: Option<Seq<usize>>,
    data: Seq<Seq<Seq<char>>>,
    row: int,
    col: int,
) -> Seq<char> {
    match change_at(rule, columns, data, row, col) {
        Some(v) => v,
        None => data[row][col],
    }
}

/// The table after the action.
pub open spec fn rewritten(
    rule: CellRuleView,
    columns: Option<Seq<usize>>,
    data: Seq<Seq<Seq<char>>>,
) -> Seq<Seq<Seq<char>>> {
    Seq::new(
        data.len(),
        |row: int|
            Seq::new(data[row].len(), |col: int| value_after(rule, columns, data, row, col)),
    )
}

/// The changes in the first `upto` cells of row `row`.
pub open spec fn row_changes(
    rule: CellRuleView,
    columns: Option<Seq<usize>>,
    data: Seq<Seq<Seq<char>>>,
    row: int,
    upto: int,
) -> Seq<ModificationView>
    decreases upto,
{
    if upto <= 0 {
        Seq::empty()
    } else {
        let before = row_changes(rule, columns, data, row, upto - 1);
        match change_at(rule, columns, data, row, upto - 1) {
            Some(v) => before.push(
                ModificationView {
                    row_index: row as usize,
                    column_index: (upto - 1) as usize,
                    old_value: data[row][upto - 1],
                    new_value: v,
                },
            ),
            None => before,
        }
    }
}

/// The changes in the first `upto` rows.
pub open spec fn table_changes(
    rule: CellRuleView,
    columns: Option<Seq<usize>>,
    data: Seq<Seq<Seq<char>>>,
    upto: int,
) -> Seq<ModificationView>
    decreases upto,
{
    if upto <= 0 || upto > data.len() {
        Seq::empty()
    } else {
        table_changes(rule, columns, data, upto - 1) + row_changes(
            rule,
            columns,
            data,
            upto - 1,
            data[upto - 1].len() as int,
        )
    }
}

/// The text that stands for a row when rows are compared: its cells with a
/// bar between neighbours.
pub open spec fn row_key(row: Seq<Seq<char>>) -> Seq<char> {
    joined(row, "|"@)
}

/// Whether row `row` repeats an earlier row.
pub open spec fn repeats_earlier(data: Seq<Seq<Seq<char>>>, row: int) -> bool {
    exists|j: int| 0 <= j < row && row_key(#[trigger] data[j]) == row_key(data[row])
}

/// The first `upto` rows without those that repeat an earlier row.
pub open spec fn without_repeats(data: Seq<Seq<Seq<char>>>, upto: int) -> Seq<Seq<Seq<char>>>
    decreases upto,
{
    if upto <= 0 || upto > data.len() {
        Seq::empty()
    } else if repeats_earlier(data, upto - 1) {
        without_repeats(data, upto - 1)
    } else {
        without_repeats(data, upto - 1).push(data[upto - 1])
    }
}

/// A column that is named is selected.
pub proof fn lemma_named_is_selected(indices: Seq<usize>, k: int)
    requires
        0 <= k < indices.len(),
    ensures
        selected(Some(indices), indices[k] as int),
{
    assert(Some(indices)->Some_0 == indices);
}

/// How an action is carried out.
pub enum Plan {
    /// Rewrite the selected cells by a rule.
    Rewrite(CellRuleView),
    /// Remove the rows that repeat an earlier row.
    RemoveRepeats,
    /// Leave the table as it is: the action has nothing to do.
    Nothing,
    /// Leave the table as it is: the action is not carried out here.
    NotHere,
}

/// The pattern for a run of whitespace.
pub open spec fn whitespace_run() -> Seq<char> {
    r"\s+"@
}

/// How missing values are filled: by the parameter `method`, which may be
/// `custom` (the parameter `value`), `forward_fill` or `mean`; any other
/// method fills nothing.
pub open spec fn fill_plan(params: Seq<(Seq<char>, Seq<char>)>) -> Plan {
    let method = param(params, "method"@);
    if method == Some("custom"@) {
        Plan::Rewrite(
            CellRuleView::FillCustom(
                match param(params, "value"@) {
                    Some(v) => v,
                    None => Seq::empty(),
                },
            ),
        )
    } else if method == Some("forward_fill"@) {
        Plan::Rewrite(CellRuleView::FillForward)
    } else if method == Some("mean"@) {
        Plan::NotHere
    } else {
        Plan::Nothing
    }
}

/// The formats under which a date is read when it is put in its standard
/// form, in the order in which they are tried.
pub open spec fn date_inputs() -> Seq<Seq<char>> {
    seq!["%Y-%m-%d"@, "%d/%m/%Y"@, "%m/%d/%Y"@, "%Y/%m/%d"@, "%d-%m-%Y"@, "%m-%d-%Y"@]
}

/// How values are put in a standard form: by the parameter `type`, which
/// may be `date` (also where there is none), `number`, `phone` or `email`;
/// any other type changes nothing.
pub open spec fn standardize_plan(params: Seq<(Seq<char>, Seq<char>)>) -> Plan {
    let kind = match param(params, "type"@) {
        Some(k) => k,
        None => "date"@,
    };
    if kind == "date"@ {
        Plan::Rewrite(
            CellRuleView::Reformat { inputs: date_inputs(), output: "%Y-%m-%d"@, trimmed: false },
        )
    } else if kind == "number"@ {
        Plan::NotHere
    } else if kind == "phone"@ {
        Plan::Rewrite(CellRuleView::Phone)
    } else if kind == "email"@ {
        Plan::Rewrite(CellRuleView::Email)
    } else {
        Plan::Nothing
    }
}

/// How an action is carried out.
pub open spec fn plan_of(action: CleansingAction, params: Seq<(Seq<char>, Seq<char>)>) -> Plan {
    match action {
        CleansingAction::TrimWhitespace => Plan::Rewrite(CellRuleView::Trim),
        CleansingAction::RemoveDuplicates => Plan::RemoveRepeats,
        CleansingAction::FillMissingValues => fill_plan(params),
        CleansingAction::NormalizeText => if pattern_compiles(whitespace_run()) {
            Plan::Rewrite(CellRuleView::Normalize(whitespace_run()))
        } else {
            Plan::NotHere
        },
        CleansingAction::StandardizeFormat => standardize_plan(params),
        CleansingAction::RemoveOutliers => Plan::NotHere,
    }
}

/// Whether `after` and `result` are what carrying out `plan` on `before`
/// gives.
pub open spec fn carried_out(
    plan: Plan,
    columns: Option<Seq<usize>>,
    before: Seq<Seq<Seq<char>>>,
    after: Seq<Seq<Seq<char>>>,
    result: Option<CleansingResult>,
) -> bool {
    match plan {
        Plan::Rewrite(rule) => {
            &&& result is Some
            &&& after == rewritten(rule, columns, before)
            &&& result->Some_0.modifications.deep_view() == table_changes(
                rule,
                columns,
                before,
                before.len() as int,
            )
            &&& result->Some_0.cells_modified == result->Some_0.modifications.len()
            &&& result->Some_0.rows_affected == result->Some_0.modifications.len()
        },
        Plan::RemoveRepeats => {
            &&& result is Some
            &&& after == without_repeats(before, before.len() as int)
            &&& result->Some_0.rows_affected == before.len() - after.len()
            &&& result->Some_0.cells_modified == 0
            &&& result->Some_0.modifications.len() == 0
        },
        Plan::Nothing => {
            &&& result is Some
            &&& after == before
            &&& result->Some_0.rows_affected == 0
            &&& result->Some_0.cells_modified == 0
            &&& result->Some_0.modifications.len() == 0
        },
        Plan::NotHere => result is None && after == before,
    }
}

/// Whether `key` is among `keys`.
pub open spec fn key_known(keys: Seq<Vec<char>>, key: Seq<char>) -> bool {
    exists|k: int| 0 <= k < keys.len() && (#[trigger] keys[k])@ == key
}

/// Whether `columns` names the column `col`, or names none at all.
pub fn is_selected(columns: &Option<Vec<usize>>, col: usize) -> (b: bool)
    ensures
        b == selected(columns.deep_view(), col as int),
{
    match columns {
        None => true,
        Some(indices) => {
            let mut k: usize = 0;
            while k < indices.len()
                invariant
                    k <= indices.len(),
                    *columns == Some(*indices),
                    forall|j: int| 0 <= j < k ==> indices[j] != col,
                decreases indices.len() - k,
            {
                if indices[k] == col {
                    assert(columns.deep_view() == Some(indices.deep_view()));
                    assert(indices.deep_view().len() == indices.len());
                    assert(indices.deep_view()[k as int] == col);
                    proof {
                        lemma_named_is_selected(indices.deep_view(), k as int);
                    }
                    return true;
                }
                k += 1;
            }
            assert(forall|j: int| 0 <= j < indices.len() ==> indices.deep_view()[j] == indices[j]);
            false
        },
    }
}

/// The text that stands for a row when rows are compared.
pub fn key_of(row: &Vec<String>) -> (key: Vec<char>)
    ensures
        key@ == row_key(row.deep_view()),
{
    let mut cells: Vec<Vec<char>> = Vec::new();
    let mut i: usize = 0;
    while i < row.len()
        invariant
            i <= row.len(),
            cells.len() == i,
            forall|k: int| 0 <= k < i ==> cells[k]@ == row[k]@,
        decreases row.len() - i,
    {
        cells.push(to_chars(row[i].as_str()));
        i += 1;
    }
    assert(views(cells@) =~= row.deep_view());
    let key = join_chars(&cells, "|");
    to_chars(key.as_str())
}

/// The data cleanser.
pub struct DataCleanser;

impl DataCleanser {
    /// Rewrites the selected cells by `rule` and reports every cell that
    /// changed.
    pub fn rewrite(data: &mut Vec<Vec<String>>, columns: &Option<Vec<usize>>, rule: &CellRule) -> (result:
        CleansingResult)
        ensures
            final(data).deep_view() == rewritten(
                rule.model(),
                columns.deep_view(),
                old(data).deep_view(),
            ),
            result.modifications.deep_view() == table_changes(
                rule.model(),
                columns.deep_view(),
                old(data).deep_view(),
                old(data).len() as int,
            ),
            result.cells_modified == result.modifications.len(),
            result.rows_affected == result.modifications.len(),
    {
        let ghost before = data.deep_view();
        let ghost model = rule.model();
        let ghost cols = columns.deep_view();
        let mut out: Vec<Vec<String>> = Vec::new();
        let mut modifications: Vec<ModificationDetail> = Vec::new();
        let mut row: usize = 0;
        assert(modifications.deep_view() =~= table_changes(model, cols, before, 0));
        while row < data.len()
            invariant
                row <= data.len(),
                data.deep_view() == before,
                model == rule.model(),
                cols == columns.deep_view(),
                out.len() == row,
                forall|r: int, c: int|
                    0 <= r < row && 0 <= c < before[r].len() ==> (#[trigger] out[r][c])@
                        == value_after(model, cols, before, r, c),
                forall|r: int| 0 <= r < row ==> (#[trigger] out[r]).len() == before[r].len(),
                modifications.deep_view() == table_changes(model, cols, before, row as int),
            decreases data.len() - row,
        {
            let ghost done = modifications.deep_view();
            let mut cells: Vec<String> = Vec::new();
            let mut col: usize = 0;
            let width: usize = data[row].len();
            assert(modifications.deep_view() =~= done + row_changes(
                model,
                cols,
                before,
                row as int,
                0,
            ));
            assert(before[row as int].len() == width);
            while col < width
                invariant
                    row < data.len(),
                    col <= width == data[row as int].len(),
                    width == before[row as int].len(),
                    data.deep_view() == before,
                    model == rule.model(),
                    cols == columns.deep_view(),
                    cells.len() == col,
                    forall|c: int|
                        0 <= c < col ==> (#[trigger] cells[c])@ == value_after(
                            model,
                            cols,
                            before,
                            row as int,
                            c,
                        ),
                    modifications.deep_view() == done + row_changes(
                        model,
                        cols,
                        before,
                        row as int,
                        col as int,
                    ),
                decreases width - col,
            {
                let ghost so_far = modifications.deep_view();
                assert(before[row as int][col as int] == data[row as int][col as int]@);
                let fresh = if is_selected(columns, col) {
                    value_for(rule, data.as_slice(), row, col)
                } else {
                    None
                };
                let changed = match fresh {
                    Some(v) => if str_eq(v.as_str(), data[row][col].as_str()) {
                        None
                    } else {
                        Some(v)
                    },
                    None => None,
                };
                match changed {
                    Some(v) => {
                        let detail = ModificationDetail {
                            row_index: row,
                            column_index: col,
                            old_value: data[row][col].clone(),
                            new_value: v.clone(),
                        };
                        modifications.push(detail);
                        assert(modifications.deep_view() =~= so_far.push(detail.deep_view()));
                        cells.push(v);
                    },
                    None => {
                        cells.push(data[row][col].clone());
                    },
                }
                col += 1;
                assert(modifications.deep_view() =~= done + row_changes(
                    model,
                    cols,
                    before,
                    row as int,
                    col as int,
                ));
            }
            out.push(cells);
            row += 1;
        }
        assert(out.deep_view() =~~= rewritten(model, cols, before));
        *data = out;
        let count = modifications.len();
        CleansingResult { rows_affected: count, cells_modified: count, modifications }
    }

    /// Removes the surrounding whitespace of the selected cells.
    pub fn trim_whitespace(data: &mut Vec<Vec<String>>, column_indices: &Option<Vec<usize>>) -> (result:
        CleansingResult)
        ensures
            final(data).deep_view() == rewritten(
                CellRuleView::Trim,
                column_indices.deep_view(),
                old(data).deep_view(),
            ),
            result.modifications.deep_view() == table_changes(
                CellRuleView::Trim,
                column_indices.deep_view(),
                old(data).deep_view(),
                old(data).len() as int,
            ),
            result.cells_modified == result.modifications.len(),
            result.rows_affected == result.modifications.len(),
    {
        DataCleanser::rewrite(data, column_indices, &CellRule::Trim)
    }

    /// Removes every row that repeats an earlier row. Rows are compared by
    /// their cells joined with bars.
    pub fn remove_duplicates(data: &mut Vec<Vec<String>>) -> (result: CleansingResult)
        ensures
            final(data).deep_view() == without_repeats(
                old(data).deep_view(),
                old(data).len() as int,
            ),
            result.rows_affected == old(data).len() - final(data).len(),
            result.cells_modified == 0,
            result.modifications.len() == 0,
    {
        let ghost before = data.deep_view();
        let mut kept: Vec<Vec<String>> = Vec::new();
        let mut keys: Vec<Vec<char>> = Vec::new();
        let ghost mut sources: Seq<int> = Seq::empty();
        let mut row: usize = 0;
        assert(kept.deep_view() =~= without_repeats(before, 0));
        while row < data.len()
            invariant
                row <= data.len(),
                data.deep_view() == before,
                kept.deep_view() == without_repeats(before, row as int),
                kept.len() <= row,
                keys.len() == sources.len(),
                forall|k: int|
                    0 <= k < keys.len() ==> 0 <= #[trigger] sources[k] < row && keys[k]@
                        == row_key(before[sources[k]]),
                forall|j: int| 0 <= j < row ==> key_known(keys@, row_key(#[trigger] before[j])),
            decreases data.len() - row,
        {
            let key = key_of(&data[row]);
            assert(key@ == row_key(before[row as int]));
            let ghost keys_before = keys@;
            let mut k: usize = 0;
            let mut seen = false;
            while k < keys.len()
                invariant
                    k <= keys.len(),
                    !seen ==> forall|j: int| 0 <= j < k ==> (#[trigger] keys[j])@ != key@,
                    seen ==> key_known(keys@, key@),
                decreases keys.len() - k,
            {
                if chars_eq(&keys[k], &key) {
                    seen = true;
                }
                k += 1;
            }
            let ghost so_far = kept.deep_view();
            if seen {
                proof {
                    let j = choose|j: int| 0 <= j < keys.len() && (#[trigger] keys[j])@ == key@;
                    assert(row_key(before[sources[j]]) == row_key(before[row as int]));
                    assert(repeats_earlier(before, row as int));
                }
            } else {
                proof {
                    if repeats_earlier(before, row as int) {
                        let j = choose|j: int|
                            0 <= j < row && row_key(#[trigger] before[j]) == row_key(
                                before[row as int],
                            );
                        assert(key_known(keys@, row_key(before[j])));
                    }
                }
                kept.push(data[row].clone());
                assert(kept.deep_view() =~= so_far.push(before[row as int]));
                keys.push(key);
                proof {
                    sources = sources.push(row as int);
                    assert(keys[keys.len() - 1]@ == key@);
                    assert(key_known(keys@, key@));
                }
            }
            row += 1;
            assert forall|j: int| 0 <= j < row implies key_known(
                keys@,
                row_key(#[trigger] before[j]),
            ) by {
                if j < row - 1 {
                    assert(key_known(keys_before, row_key(before[j])));
                    let x = choose|x: int|
                        0 <= x < keys_before.len() && (#[trigger] keys_before[x])@ == row_key(
                            before[j],
                        );
                    assert(keys[x] == keys_before[x]);
                }
            }
        }
        let removed = data.len() - kept.len();
        *data = kept;
        CleansingResult { rows_affected: removed, cells_modified: 0, modifications: Vec::new() }
    }

    /// Fills the selected cells that are blank, by the method that the
    /// parameters name.
    pub fn fill_missing_values(data: &mut Vec<Vec<String>>, options: &CleansingOptions) -> (result:
        Option<CleansingResult>)
        ensures
            carried_out(
                fill_plan(options.parameters.deep_view()),
                options.column_indices.deep_view(),
                old(data).deep_view(),
                final(data).deep_view(),
                result,
            ),
    {
        let method = get_param(&options.parameters, "method");
        proof {
            lemma_empty_is_no_method();
        }
        let chosen: &str = match method {
            Some(m) => m.as_str(),
            None => "empty",
        };
        if str_eq(chosen, "custom") {
            let value = match get_param(&options.parameters, "value") {
                Some(v) => v.clone(),
                None => String::new(),
            };
            Some(DataCleanser::rewrite(data, &options.column_indices, &CellRule::FillCustom(value)))
        } else if str_eq(chosen, "forward_fill") {
            Some(DataCleanser::rewrite(data, &options.column_indices, &CellRule::FillForward))
        } else if str_eq(chosen, "mean") {
            None
        } else {
            Some(CleansingResult { rows_affected: 0, cells_modified: 0, modifications: Vec::new() })
        }
    }

    /// Replaces every run of whitespace in the selected cells by one space
    /// and removes the surrounding whitespace.
    pub fn normalize_text(data: &mut Vec<Vec<String>>, column_indices: &Option<Vec<usize>>) -> (result:
        Option<CleansingResult>)
        ensures
            carried_out(
                plan_of(CleansingAction::NormalizeText, Seq::empty()),
                column_indices.deep_view(),
                old(data).deep_view(),
                final(data).deep_view(),
                result,
            ),
    {
        match compile(r"\s+") {
            Some(re) => Some(DataCleanser::rewrite(data, column_indices, &CellRule::Normalize(re))),
            None => None,
        }
    }

    /// Puts the selected cells in the standard form of the kind that the
    /// parameters name.
    pub fn standardize_format(
        data: &mut Vec<Vec<String>>,
        headers: &[String],
        options: &CleansingOptions,
    ) -> (result: Option<CleansingResult>)
        ensures
            carried_out(
                standardize_plan(options.parameters.deep_view()),
                options.column_indices.deep_view(),
                old(data).deep_view(),
                final(data).deep_view(),
                result,
            ),
    {
        let kind: &str = match get_param(&options.parameters, "type") {
            Some(k) => k.as_str(),
            None => "date",
        };
        if str_eq(kind, "date") {
            let inputs: Vec<&'static str> = vec![
                "%Y-%m-%d",
                "%d/%m/%Y",
                "%m/%d/%Y",
                "%Y/%m/%d",
                "%d-%m-%Y",
                "%m-%d-%Y",
            ];
            assert(inputs.deep_view() =~= date_inputs());
            let rule = CellRule::Reformat { inputs, output: "%Y-%m-%d", trimmed: false };
            Some(DataCleanser::rewrite(data, &options.column_indices, &rule))
        } else if str_eq(kind, "number") {
            None
        } else if str_eq(kind, "phone") {
            Some(DataCleanser::rewrite(data, &options.column_indices, &CellRule::Phone))
        } else if str_eq(kind, "email") {
            Some(DataCleanser::rewrite(data, &options.column_indices, &CellRule::Email))
        } else {
            Some(CleansingResult { rows_affected: 0, cells_modified: 0, modifications: Vec::new() })
        }
    }

    /// The standard form of a date: year, month and day with dashes.
    pub fn standardize_date(value: &str) -> (r: Option<String>)
        ensures
            r.deep_view() == crate::csv_engine::cells::date_form(
                value@,
                date_inputs(),
                "%Y-%m-%d"@,
            ),
    {
        let inputs: Vec<&'static str> = vec![
            "%Y-%m-%d",
            "%d/%m/%Y",
            "%m/%d/%Y",
            "%Y/%m/%d",
            "%d-%m-%Y",
            "%m-%d-%Y",
        ];
        assert(inputs.deep_view() =~= date_inputs());
        crate::csv_engine::cells::date_in_form(value, &inputs, "%Y-%m-%d")
    }

    /// The standard form of a phone number.
    pub fn standardize_phone(value: &str) -> (r: Option<String>)
        ensures
            r.deep_view() == crate::csv_engine::cells::phone_form(value@),
    {
        crate::csv_engine::cells::phone_in_form(value)
    }

    /// The standard form of a mail address: trimmed and in lower case.
    pub fn standardize_email(value: &str) -> (r: Option<String>)
        ensures
            r.deep_view() == Some(crate::text::lowercase(crate::text::trimmed(value@))),
    {
        let text = crate::text::trim(value);
        Some(crate::text::lower(text.as_str()))
    }

    /// Carries out the action of `options` on the table.
    pub fn cleanse(data: &mut Vec<Vec<String>>, headers: &[String], options: &CleansingOptions) -> (result:
        Option<CleansingResult>)
        ensures
            carried_out(
                plan_of(options.action, options.parameters.deep_view()),
                options.column_indices.deep_view(),
                old(data).deep_view(),
                final(data).deep_view(),
                result,
            ),
    {
        match options.action {
            CleansingAction::TrimWhitespace => Some(
                DataCleanser::trim_whitespace(data, &options.column_indices),
            ),
            CleansingAction::RemoveDuplicates => Some(DataCleanser::remove_duplicates(data)),
            CleansingAction::FillMissingValues => DataCleanser::fill_missing_values(data, options),
            CleansingAction::NormalizeText => DataCleanser::normalize_text(
                data,
                &options.column_indices,
            ),
            CleansingAction::StandardizeFormat => DataCleanser::standardize_format(
                data,
                headers,
                options,
            ),
            CleansingAction::RemoveOutliers => None,
        }
    }
}

/// The method that stands in where none is named is none of the methods
/// that fill anything.
pub proof fn lemma_empty_is_no_method()
    ensures
        "empty"@ != "custom"@,
        "empty"@ != "forward_fill"@,
        "empty"@ != "mean"@,
{
    reveal_strlit("empty");
    reveal_strlit("custom");
    reveal_strlit("forward_fill");
    reveal_strlit("mean");
    assert("empty"@.len() == 5);
    assert("custom"@.len() == 6);
    assert("forward_fill"@.len() == 12);
    assert("mean"@.len() == 4);
}

} // verus!
