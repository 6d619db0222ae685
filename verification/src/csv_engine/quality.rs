//! Reports on the quality of a table.
//!
//! Rows are compared as in cleansing: by their cells joined with bars.

use vstd::prelude::*;
use vstd::string::*;
use crate::csv_engine::cleansing::{key_of, repeats_earlier, row_key};
use crate::csv_engine::data_types::{
    first_largest, index_of_type, name_of_type, type_at, type_index, type_label, type_of_index,
    value_type, DataTypeDetector,
};
use crate::csv_engine::table::{cell, get_cell};
use crate::csv_engine::validation::{first_seen, first_seen_from};
use crate::text::{chars_eq, is_blank, str_eq, str_is_blank};

verus! {

/// The rows that repeat each other.
#[derive(Clone, Debug, PartialEq, Eq)]
pub struct DuplicateReport {
    /// How many rows repeat an earlier row.
    pub total_duplicates: usize,
    /// The groups of equal rows, larger groups first.
    pub duplicate_rows: Vec<DuplicateRow>,
}

/// A group of equal rows.
#[derive(Clone, Debug, PartialEq, Eq)]
pub struct DuplicateRow {
    /// The rows of the group, from the first to the last.
    pub row_indices: Vec<usize>,
    /// How many rows the group has.
    pub count: usize,
}

/// The mathematical value of a [`DuplicateRow`].
pub struct DuplicateRowView {
    pub row_indices: Seq<usize>,
    pub count: usize,
}

impl DeepView for DuplicateRow {
    type V = DuplicateRowView;

    open spec fn deep_view(&self) -> DuplicateRowView {
        DuplicateRowView { row_indices: self.row_indices.deep_view(), count: self.count }
    }
}

/// How many of the first `upto` rows repeat an earlier row.
pub open spec fn repeat_count(data: Seq<Seq<Seq<char>>>, upto: int) -> int
    decreases upto,
{
    if upto <= 0 {
        0
    } else if repeats_earlier(data, upto - 1) {
        repeat_count(data, upto - 1) + 1
    } else {
        repeat_count(data, upto - 1)
    }
}

/// The rows among the first `upto` that equal row `row`, in their order.
pub open spec fn equal_rows(data: Seq<Seq<Seq<char>>>, row: int, upto: int) -> Seq<usize>
    decreases upto,
{
    if upto <= 0 {
        Seq::empty()
    } else if row_key(data[upto - 1]) == row_key(data[row]) {
        equal_rows(data, row, upto - 1).push((upto - 1) as usize)
    } else {
        equal_rows(data, row, upto - 1)
    }
}

/// The group of row `row`, where the row is the first of a group of two rows
/// or more.
pub open spec fn group_at(data: Seq<Seq<Seq<char>>>, row: int) -> Option<DuplicateRowView> {
    let rows = equal_rows(data, row, data.len() as int);
    if !repeats_earlier(data, row) && rows.len() > 1 {
        Some(DuplicateRowView { row_indices: rows, count: rows.len() as usize })
    } else {
        None
    }
}

/// Where a group of `count` rows goes among groups that are in order: behind
/// every group that is at least as large.
pub open spec fn place_for(sorted: Seq<DuplicateRowView>, count: usize, from: int) -> int
    decreases sorted.len() - from,
{
    if from < 0 || from >= sorted.len() {
        sorted.len() as int
    } else if sorted[from].count < count {
        from
    } else {
        place_for(sorted, count, from + 1)
    }
}

/// The groups of the first `upto` rows, larger groups first; groups of the
/// same size in the order of their first rows.
pub open spec fn groups(data: Seq<Seq<Seq<char>>>, upto: int) -> Seq<DuplicateRowView>
    decreases upto,
{
    if upto <= 0 {
        Seq::empty()
    } else {
        let before = groups(data, upto - 1);
        match group_at(data, upto - 1) {
            Some(g) => before.insert(place_for(before, g.count, 0), g),
            None => before,
        }
    }
}

/// The analyzer of quality.
pub struct QualityAnalyzer;

impl QualityAnalyzer {
    /// The groups of equal rows, and how many rows repeat an earlier one.
    pub fn detect_duplicates(data: &[Vec<String>]) -> (report: DuplicateReport)
        ensures
            report.total_duplicates == repeat_count(data.deep_view(), data.len() as int),
            report.duplicate_rows.deep_view() == groups(data.deep_view(), data.len() as int),
    {
        let ghost table = data.deep_view();
        let mut keys: Vec<Vec<char>> = Vec::new();
        let mut i: usize = 0;
        while i < data.len()
            invariant
                i <= data.len(),
                table == data.deep_view(),
                keys.len() == i,
                forall|k: int| 0 <= k < i ==> (#[trigger] keys[k])@ == row_key(table[k]),
            decreases data.len() - i,
        {
            keys.push(key_of(&data[i]));
            i += 1;
        }
        let n: usize = data.len();
        let mut total: usize = 0;
        let mut found: Vec<DuplicateRow> = Vec::new();
        let mut row: usize = 0;
        assert(found.deep_view() =~= groups(table, 0));
        while row < n
            invariant
                row <= n == keys.len(),
                n == table.len(),
                forall|k: int| 0 <= k < n ==> (#[trigger] keys[k])@ == row_key(table[k]),
                total == repeat_count(table, row as int),
                total <= row,
                found.deep_view() == groups(table, row as int),
            decreases n - row,
        {
            let mut repeated = false;
            let mut rows: Vec<usize> = Vec::new();
            let mut j: usize = 0;
            assert(rows.deep_view() =~= equal_rows(table, row as int, 0));
            while j < n
                invariant
                    j <= n == keys.len(),
                    row < n,
                    n == table.len(),
                    forall|k: int| 0 <= k < n ==> (#[trigger] keys[k])@ == row_key(table[k]),
                    rows.deep_view() == equal_rows(table, row as int, j as int),
                    repeated == (exists|k: int|
                        0 <= k < row && k < j && row_key(#[trigger] table[k]) == row_key(
                            table[row as int],
                        )),
                decreases n - j,
            {
                let ghost so_far = rows.deep_view();
                if chars_eq(&keys[j], &keys[row]) {
                    if j < row {
                        repeated = true;
                    }
                    rows.push(j);
                    assert(rows.deep_view() =~= so_far.push(j));
                }
                j += 1;
            }
            assert(repeated == repeats_earlier(table, row as int));
            let ghost before = found.deep_view();
            if repeated {
                total += 1;
            } else if rows.len() > 1 {
                let count = rows.len();
                let group = DuplicateRow { row_indices: rows, count };
                let mut place: usize = 0;
                while place < found.len() && found[place].count >= count
                    invariant
                        place <= found.len(),
                        found.deep_view() == before,
                        place_for(before, count, 0) == place_for(before, count, place as int),
                    decreases found.len() - place,
                {
                    place += 1;
                }
                found.insert(place, group);
                assert(found.deep_view() =~= before.insert(place as int, group.deep_view()));
            }
            row += 1;
        }
        DuplicateReport { total_duplicates: total, duplicate_rows: found }
    }
}

/// What was counted in one column.
#[derive(Clone, Debug, PartialEq, Eq)]
pub struct ColumnCounts {
    pub column_index: usize,
    pub column_name: String,
    /// The rows of the table.
    pub total_values: usize,
    /// The cells of the column that are blank.
    pub empty_count: usize,
    /// The different values among the cells that are not blank.
    pub unique_count: usize,
    /// The kind that most of the values that are not blank are of.
    pub dominant_type: String,
    /// The values of that kind.
    pub dominant_count: usize,
}

/// The mathematical value of [`ColumnCounts`].
pub struct ColumnCountsView {
    pub column_index: usize,
    pub column_name: Seq<char>,
    pub total_values: usize,
    pub empty_count: usize,
    pub unique_count: usize,
    pub dominant_type: Seq<char>,
    pub dominant_count: usize,
}

impl DeepView for ColumnCounts {
    type V = ColumnCountsView;

    open spec fn deep_view(&self) -> ColumnCountsView {
        ColumnCountsView {
            column_index: self.column_index,
            column_name: self.column_name@,
            total_values: self.total_values,
            empty_count: self.empty_count,
            unique_count: self.unique_count,
            dominant_type: self.dominant_type@,
            dominant_count: self.dominant_count,
        }
    }
}

/// Whether row `row` has a cell in column `col` that is not blank.
pub open spec fn has_value(data: Seq<Seq<Seq<char>>>, row: int, col: int) -> bool {
    cell(data, row, col) is Some && !is_blank(cell(data, row, col)->Some_0)
}

/// How many of the first `upto` rows have a blank cell in column `col`.
pub open spec fn blank_count(data: Seq<Seq<Seq<char>>>, col: int, upto: int) -> int
    decreases upto,
{
    if upto <= 0 {
        0
    } else if cell(data, upto - 1, col) is Some && is_blank(cell(data, upto - 1, col)->Some_0) {
        blank_count(data, col, upto - 1) + 1
    } else {
        blank_count(data, col, upto - 1)
    }
}

/// How many different values the first `upto` rows hold in column `col`,
/// blank cells apart.
pub open spec fn distinct_count(data: Seq<Seq<Seq<char>>>, col: int, upto: int) -> int
    decreases upto,
{
    if upto <= 0 {
        0
    } else if has_value(data, upto - 1, col) && first_seen(
        data,
        col,
        cell(data, upto - 1, col)->Some_0,
        upto - 1,
    ) is None {
        distinct_count(data, col, upto - 1) + 1
    } else {
        distinct_count(data, col, upto - 1)
    }
}

/// How many of the first `upto` rows hold a value of the kind at place
/// `index` in column `col`, blank cells apart.
pub open spec fn kind_count(
    email: Option<Seq<char>>,
    url: Option<Seq<char>>,
    data: Seq<Seq<Seq<char>>>,
    col: int,
    index: int,
    upto: int,
) -> nat
    decreases upto,
{
    if upto <= 0 {
        0
    } else if has_value(data, upto - 1, col) && type_index(
        value_type(email, url, cell(data, upto - 1, col)->Some_0),
    ) == index {
        kind_count(email, url, data, col, index, upto - 1) + 1
    } else {
        kind_count(email, url, data, col, index, upto - 1)
    }
}

/// The counts of the nine kinds in column `col`.
pub open spec fn kind_counts(
    email: Option<Seq<char>>,
    url: Option<Seq<char>>,
    data: Seq<Seq<Seq<char>>>,
    col: int,
) -> Seq<nat> {
    Seq::new(9, |index: int| kind_count(email, url, data, col, index, data.len() as int))
}

/// What is counted in column `col`. The kind of the column is the one that
/// most of its values are of; of several such kinds the first in the order
/// of the kinds; text where the column holds no value.
pub open spec fn counted(
    email: Option<Seq<char>>,
    url: Option<Seq<char>>,
    data: Seq<Seq<Seq<char>>>,
    headers: Seq<Seq<char>>,
    col: int,
) -> ColumnCountsView {
    let counts = kind_counts(email, url, data, col);
    let best = first_largest(counts, 9);
    ColumnCountsView {
        column_index: col as usize,
        column_name: headers[col],
        total_values: data.len() as usize,
        empty_count: blank_count(data, col, data.len() as int) as usize,
        unique_count: distinct_count(data, col, data.len() as int) as usize,
        dominant_type: if counts[best] == 0 {
            "Text"@
        } else {
            type_label(type_at(best))
        },
        dominant_count: counts[best] as usize,
    }
}

impl QualityAnalyzer {
    /// What is counted in column `col`.
    pub fn count_column(
        detector: &DataTypeDetector,
        data: &[Vec<String>],
        headers: &[String],
        col: usize,
    ) -> (counts: ColumnCounts)
        requires
            col < headers.len(),
        ensures
            counts.deep_view() == counted(
                detector.email(),
                detector.url(),
                data.deep_view(),
                headers.deep_view(),
                col as int,
            ),
    {
        let ghost table = data.deep_view();
        let mut empty: usize = 0;
        let mut unique: usize = 0;
        let mut kinds: Vec<usize> = vec![0, 0, 0, 0, 0, 0, 0, 0, 0];
        let mut row: usize = 0;
        while row < data.len()
            invariant
                row <= data.len(),
                table == data.deep_view(),
                empty == blank_count(table, col as int, row as int),
                empty <= row,
                unique == distinct_count(table, col as int, row as int),
                unique <= row,
                kinds.len() == 9,
                forall|k: int|
                    0 <= k < 9 ==> (#[trigger] kinds[k]) == kind_count(
                        detector.email(),
                        detector.url(),
                        table,
                        col as int,
                        k,
                        row as int,
                    ) && kinds[k] <= row,
            decreases data.len() - row,
        {
            if let Some(value) = get_cell(data, row, col) {
                if str_is_blank(value.as_str()) {
                    empty += 1;
                } else {
                    let mut seen = false;
                    let mut j: usize = 0;
                    while j < row
                        invariant
                            j <= row < data.len(),
                            table == data.deep_view(),
                            cell(table, row as int, col as int) == Some(value@),
                            seen == (first_seen_from(table, col as int, value@, 0, j as int) is Some),
                            first_seen_from(table, col as int, value@, 0, row as int) is Some
                                <==> (seen || first_seen_from(
                                table,
                                col as int,
                                value@,
                                j as int,
                                row as int,
                            ) is Some),
                        decreases row - j,
                    {
                        let same = match get_cell(data, j, col) {
                            Some(other) => str_eq(other.as_str(), value.as_str()),
                            None => false,
                        };
                        proof {
                            lemma_seen_steps(table, col as int, value@, j as int);
                        }
                        if same {
                            seen = true;
                        }
                        j += 1;
                    }
                    if !seen {
                        unique += 1;
                    }
                    let kind = index_of_type(detector.detect_value_type(value.as_str()));
                    let n = kinds[kind];
                    kinds.set(kind, n + 1);
                }
            }
            row += 1;
        }
        let best = DataTypeDetector::largest(&kinds);
        assert(Seq::new(9, |k: int| kinds[k] as nat) =~= kind_counts(
            detector.email(),
            detector.url(),
            table,
            col as int,
        ));
        let dominant_type = if kinds[best] == 0 {
            String::from_str("Text")
        } else {
            String::from_str(name_of_type(type_of_index(best)))
        };
        ColumnCounts {
            column_index: col,
            column_name: headers[col].clone(),
            total_values: data.len(),
            empty_count: empty,
            unique_count: unique,
            dominant_type,
            dominant_count: kinds[best],
        }
    }

    /// What is counted in each column that has a header.
    pub fn analyze_columns(data: &[Vec<String>], headers: &[String]) -> (reports: Vec<ColumnCounts>)
        ensures
            reports.len() == headers.len(),
            forall|col: int|
                0 <= col < headers.len() ==> (#[trigger] reports[col]).deep_view() == counted(
                    crate::csv_engine::data_types::accepted(
                        crate::csv_engine::data_types::email_pattern(),
                    ),
                    crate::csv_engine::data_types::accepted(
                        crate::csv_engine::data_types::url_pattern(),
                    ),
                    data.deep_view(),
                    headers.deep_view(),
                    col,
                ),
    {
        let detector = DataTypeDetector::new();
        let mut reports: Vec<ColumnCounts> = Vec::new();
        let mut col: usize = 0;
        while col < headers.len()
            invariant
                col <= headers.len(),
                reports.len() == col,
                detector.email() == crate::csv_engine::data_types::accepted(
                    crate::csv_engine::data_types::email_pattern(),
                ),
                detector.url() == crate::csv_engine::data_types::accepted(
                    crate::csv_engine::data_types::url_pattern(),
                ),
                forall|c: int|
                    0 <= c < col ==> (#[trigger] reports[c]).deep_view() == counted(
                        detector.email(),
                        detector.url(),
                        data.deep_view(),
                        headers.deep_view(),
                        c,
                    ),
            decreases headers.len() - col,
        {
            reports.push(QualityAnalyzer::count_column(&detector, data, headers, col));
            col += 1;
        }
        reports
    }
}

/// A value is first seen from row 0 on up to row `upto + 1` exactly where
/// it is first seen up to row `upto` or stands in row `upto`.
pub proof fn lemma_seen_steps(data: Seq<Seq<Seq<char>>>, col: int, value: Seq<char>, upto: int)
    requires
        0 <= upto,
    ensures
        first_seen_from(data, col, value, 0, upto + 1) is Some <==> (first_seen_from(
            data,
            col,
            value,
            0,
            upto,
        ) is Some || cell(data, upto, col) == Some(value)),
{
    lemma_seen_from(data, col, value, 0, upto);
}

/// The same, from any row on.
pub proof fn lemma_seen_from(
    data: Seq<Seq<Seq<char>>>,
    col: int,
    value: Seq<char>,
    from: int,
    upto: int,
)
    requires
        0 <= from <= upto,
    ensures
        first_seen_from(data, col, value, from, upto + 1) is Some <==> (first_seen_from(
            data,
            col,
            value,
            from,
            upto,
        ) is Some || cell(data, upto, col) == Some(value)),
    decreases upto - from,
{
    if from < upto {
        if cell(data, from, col) != Some(value) {
            lemma_seen_from(data, col, value, from + 1, upto);
        }
    } else {
        assert(first_seen_from(data, col, value, from + 1, upto + 1) is None);
        assert(first_seen_from(data, col, value, from, upto) is None);
    }
}

/// Whether groups stand larger first.
pub open spec fn larger_first(all: Seq<DuplicateRowView>) -> bool {
    forall|a: int, b: int| 0 <= a < b < all.len() ==> all[a].count >= all[b].count
}

/// Before the place that [`place_for`] gives stand groups that are at least
/// as large, and at the place, if any, stands a smaller one.
pub proof fn lemma_place_divides(sorted: Seq<DuplicateRowView>, count: usize, from: int)
    requires
        0 <= from <= sorted.len(),
    ensures
        forall|k: int| from <= k < place_for(sorted, count, from) ==> sorted[k].count >= count,
        place_for(sorted, count, from) < sorted.len() ==> sorted[place_for(
            sorted,
            count,
            from,
        )].count < count,
        from <= place_for(sorted, count, from) <= sorted.len(),
    decreases sorted.len() - from,
{
    if from < sorted.len() && sorted[from].count >= count {
        lemma_place_divides(sorted, count, from + 1);
    }
}

/// The groups of a table stand larger first.
pub proof fn lemma_groups_larger_first(data: Seq<Seq<Seq<char>>>, upto: int)
    ensures
        larger_first(groups(data, upto)),
    decreases upto,
{
    if upto > 0 {
        lemma_groups_larger_first(data, upto - 1);
        let before = groups(data, upto - 1);
        match group_at(data, upto - 1) {
            Some(g) => {
                let place = place_for(before, g.count, 0);
                lemma_place_divides(before, g.count, 0);
                let after = before.insert(place, g);
                assert forall|a: int, b: int| 0 <= a < b < after.len() implies after[a].count
                    >= after[b].count by {
                    if b < place {
                        assert(after[a] == before[a] && after[b] == before[b]);
                    } else if a < place && b == place {
                        assert(after[a] == before[a]);
                    } else if a < place && b > place {
                        assert(after[a] == before[a] && after[b] == before[b - 1]);
                    } else if a == place {
                        assert(after[b] == before[b - 1]);
                        assert(before[place].count < g.count);
                    } else {
                        assert(after[a] == before[a - 1] && after[b] == before[b - 1]);
                    }
                }
            },
            None => {},
        }
    }
}

} // verus!
