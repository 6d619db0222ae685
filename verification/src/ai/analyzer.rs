//! Analyses of a table.
//!
//! An analysis reports in words and in a document of details. The search
//! for duplicate rows and the distribution of values count without fractions
//! and are carried out here; statistics, correlations, outliers, missing
//! values and the summary compute means, percentages and the like.

use vstd::prelude::*;
use vstd::string::*;
use crate::ai::intent::{AnalysisType, TargetScope};
use crate::ai::transformer::{columns_view, target_columns, DataTransformer, TransformError};
use crate::ai_script::encoding::{member, number_doc, number_json};
use crate::csv_engine::cleansing::{key_of, row_key};
use crate::csv_engine::table::{cell, get_cell};
use crate::json::{Json, JsonView};
use crate::text::{chars_eq, decimal, push_decimal, str_eq};

verus! {

/// A picture of the data, for the user interface to draw.
#[derive(Debug, PartialEq, Eq)]
pub struct Visualization {
    pub viz_type: String,
    pub title: String,
    pub data: Json,
}

/// The mathematical value of a [`Visualization`].
pub struct VisualizationView {
    pub viz_type: Seq<char>,
    pub title: Seq<char>,
    pub data: JsonView,
}

impl DeepView for Visualization {
    type V = VisualizationView;

    open spec fn deep_view(&self) -> VisualizationView {
        VisualizationView { viz_type: self.viz_type@, title: self.title@, data: self.data@ }
    }
}

/// What an analysis found.
#[derive(Debug, PartialEq, Eq)]
pub struct AnalysisResult {
    pub summary: String,
    /// An object of details, its members in the order in which they were
    /// found.
    pub details: Json,
    pub visualizations: Vec<Visualization>,
}

/// Why an analysis gave no result.
#[derive(Clone, Debug, PartialEq, Eq)]
pub enum AnalysisError {
    /// The columns of the scope were not found.
    Columns(TransformError),
    /// The analysis computes with numbers that have a fractional part.
    NotHere,
}

/// The first row at or after `from` and before `row` that equals row `row`.
pub open spec fn first_equal_from(data: Seq<Seq<Seq<char>>>, row: int, from: int) -> Option<int>
    decreases row - from,
{
    if from < 0 || from >= row {
        None
    } else if row_key(data[from]) == row_key(data[row]) {
        Some(from)
    } else {
        first_equal_from(data, row, from + 1)
    }
}

/// The first row before `row` that equals row `row`.
pub open spec fn first_equal(data: Seq<Seq<Seq<char>>>, row: int) -> Option<int> {
    first_equal_from(data, row, 0)
}

/// The entry for a row that repeats an earlier row: the row, and the first
/// row that it repeats.
pub open spec fn repeat_entry(row: int, of: int) -> JsonView {
    JsonView::Object(
        seq![
            ("row"@, number_doc(row as usize)),
            ("duplicate_of"@, number_doc(of as usize)),
        ],
    )
}

/// The entries for the rows among the first `upto` that repeat an earlier
/// row, 100 at most.
pub open spec fn repeat_entries(data: Seq<Seq<Seq<char>>>, upto: int) -> Seq<JsonView>
    decreases upto,
{
    if upto <= 0 {
        Seq::empty()
    } else {
        let before = repeat_entries(data, upto - 1);
        match first_equal(data, upto - 1) {
            Some(of) => if before.len() < 100 {
                before.push(repeat_entry(upto - 1, of))
            } else {
                before
            },
            None => before,
        }
    }
}

/// How many of the first `upto` rows repeat no earlier row.
pub open spec fn new_rows(data: Seq<Seq<Seq<char>>>, upto: int) -> int
    decreases upto,
{
    if upto <= 0 {
        0
    } else if first_equal(data, upto - 1) is None {
        new_rows(data, upto - 1) + 1
    } else {
        new_rows(data, upto - 1)
    }
}

/// What the search for duplicate rows says in words.
pub open spec fn duplicates_summary(listed: nat, total: nat) -> Seq<char> {
    "Found "@ + decimal(listed) + " duplicate row(s) out of "@ + decimal(total) + " total rows."@
}

/// The details of the search for duplicate rows.
pub open spec fn duplicates_details(data: Seq<Seq<Seq<char>>>) -> JsonView {
    JsonView::Object(
        seq![
            ("duplicates"@, JsonView::Array(repeat_entries(data, data.len() as int))),
            ("total_rows"@, number_doc(data.len() as usize)),
            ("unique_rows"@, number_doc(new_rows(data, data.len() as int) as usize)),
        ],
    )
}

/// How many of the first `upto` rows hold `value` in column `col`.
pub open spec fn occurrences(data: Seq<Seq<Seq<char>>>, col: int, value: Seq<char>, upto: int) -> int
    decreases upto,
{
    if upto <= 0 {
        0
    } else if cell(data, upto - 1, col) == Some(value) {
        occurrences(data, col, value, upto - 1) + 1
    } else {
        occurrences(data, col, value, upto - 1)
    }
}

/// Where a value that occurs `count` times goes among values that are in
/// order: behind every value that occurs at least as often.
pub open spec fn tally_place(sorted: Seq<(Seq<char>, usize)>, count: usize, from: int) -> int
    decreases sorted.len() - from,
{
    if from < 0 || from >= sorted.len() {
        sorted.len() as int
    } else if sorted[from].1 < count {
        from
    } else {
        tally_place(sorted, count, from + 1)
    }
}

/// The values that the first `upto` rows hold in column `col`, each with the
/// number of rows of the whole table that hold it; the most frequent first,
/// and values of the same frequency in the order in which they first occur.
pub open spec fn tallies(data: Seq<Seq<Seq<char>>>, col: int, upto: int) -> Seq<(Seq<char>, usize)>
    decreases upto,
{
    if upto <= 0 {
        Seq::empty()
    } else {
        let before = tallies(data, col, upto - 1);
        match cell(data, upto - 1, col) {
            Some(value) => if occurrences(data, col, value, upto - 1) == 0 {
                let count = occurrences(data, col, value, data.len() as int) as usize;
                before.insert(tally_place(before, count, 0), (value, count))
            } else {
                before
            },
            None => before,
        }
    }
}

/// The ten most frequent values of column `col`, or all where there are
/// fewer.
pub open spec fn top_values(data: Seq<Seq<Seq<char>>>, col: int) -> Seq<(Seq<char>, usize)> {
    let all = tallies(data, col, data.len() as int);
    if all.len() > 10 {
        all.subrange(0, 10)
    } else {
        all
    }
}

/// Each value with its frequency, as a pair.
pub open spec fn pair_docs(top: Seq<(Seq<char>, usize)>) -> Seq<JsonView> {
    Seq::new(
        top.len(),
        |i: int| JsonView::Array(seq![JsonView::Text(top[i].0), number_doc(top[i].1)]),
    )
}

/// The values.
pub open spec fn label_docs(top: Seq<(Seq<char>, usize)>) -> Seq<JsonView> {
    Seq::new(top.len(), |i: int| JsonView::Text(top[i].0))
}

/// The frequencies.
pub open spec fn count_docs(top: Seq<(Seq<char>, usize)>) -> Seq<JsonView> {
    Seq::new(top.len(), |i: int| number_doc(top[i].1))
}

/// The details of the distribution of column `col`.
pub open spec fn column_distribution(data: Seq<Seq<Seq<char>>>, col: int) -> JsonView {
    JsonView::Object(
        seq![
            ("unique_values"@, number_doc(tallies(data, col, data.len() as int).len() as usize)),
            ("total_values"@, number_doc(data.len() as usize)),
            ("top_values"@, JsonView::Array(pair_docs(top_values(data, col)))),
        ],
    )
}

/// The histogram of column `col`, whose name is `name`.
pub open spec fn histogram(name: Seq<char>, data: Seq<Seq<Seq<char>>>, col: int) -> VisualizationView {
    VisualizationView {
        viz_type: "histogram"@,
        title: "Distribution of "@ + name,
        data: JsonView::Object(
            seq![
                ("labels"@, JsonView::Array(label_docs(top_values(data, col)))),
                ("values"@, JsonView::Array(count_docs(top_values(data, col)))),
            ],
        ),
    }
}

/// The place of the first member at or after `from` whose name is `name`.
pub open spec fn member_place(members: Seq<(Seq<char>, JsonView)>, name: Seq<char>, from: int) -> Option<
    int,
>
    decreases members.len() - from,
{
    if from < 0 || from >= members.len() {
        None
    } else if members[from].0 == name {
        Some(from)
    } else {
        member_place(members, name, from + 1)
    }
}

/// The members with `name` set to `value`: in the place of the member of
/// that name, or at the end where there is none.
pub open spec fn with_member(
    members: Seq<(Seq<char>, JsonView)>,
    name: Seq<char>,
    value: JsonView,
) -> Seq<(Seq<char>, JsonView)> {
    match member_place(members, name, 0) {
        Some(at) => members.update(at, (name, value)),
        None => members.push((name, value)),
    }
}

/// The details of the distribution of the first `upto` of the columns: a
/// member for each column that the table has, under the column's name.
pub open spec fn distribution_members(
    headers: Seq<Seq<char>>,
    data: Seq<Seq<Seq<char>>>,
    columns: Seq<usize>,
    upto: int,
) -> Seq<(Seq<char>, JsonView)>
    decreases upto,
{
    if upto <= 0 || upto > columns.len() {
        Seq::empty()
    } else {
        let before = distribution_members(headers, data, columns, upto - 1);
        let col = columns[upto - 1];
        if col < headers.len() {
            with_member(before, headers[col as int], column_distribution(data, col as int))
        } else {
            before
        }
    }
}

/// The histograms of the first `upto` of the columns: one for each column
/// that the table has.
pub open spec fn distribution_pictures(
    headers: Seq<Seq<char>>,
    data: Seq<Seq<Seq<char>>>,
    columns: Seq<usize>,
    upto: int,
) -> Seq<VisualizationView>
    decreases upto,
{
    if upto <= 0 || upto > columns.len() {
        Seq::empty()
    } else {
        let before = distribution_pictures(headers, data, columns, upto - 1);
        let col = columns[upto - 1];
        if col < headers.len() {
            before.push(histogram(headers[col as int], data, col as int))
        } else {
            before
        }
    }
}

/// What the analysis of distributions says in words.
pub open spec fn distribution_summary(columns: nat) -> Seq<char> {
    "Distribution analysis completed for "@ + decimal(columns) + " column(s)."@
}

/// What the analysis of the distributions of `columns` finds.
pub open spec fn distribution_found(
    result: AnalysisResult,
    headers: Seq<Seq<char>>,
    data: Seq<Seq<Seq<char>>>,
    columns: Seq<usize>,
) -> bool {
    &&& result.summary@ == distribution_summary(columns.len())
    &&& result.details@ == JsonView::Object(
        distribution_members(headers, data, columns, columns.len() as int),
    )
    &&& result.visualizations.deep_view() == distribution_pictures(
        headers,
        data,
        columns,
        columns.len() as int,
    )
}

/// Sets the member `name` of `members` to `value`.
pub fn put_member(members: &mut Vec<(String, Json)>, name: String, value: Json)
    ensures
        final(members).deep_view() == with_member(old(members).deep_view(), name@, value@),
{
    let ghost before = members.deep_view();
    let mut at: usize = 0;
    while at < members.len() && !str_eq(members[at].0.as_str(), name.as_str())
        invariant
            at <= members.len(),
            members.deep_view() == before,
            member_place(before, name@, 0) == member_place(before, name@, at as int),
        decreases members.len() - at,
    {
        assert(before[at as int].0 == members[at as int].0@);
        at += 1;
    }
    if at < members.len() {
        assert(before[at as int].0 == members[at as int].0@);
        members.set(at, (name, value));
        assert(members.deep_view() =~= before.update(at as int, (name@, value@)));
    } else {
        members.push((name, value));
        assert(members.deep_view() =~= before.push((name@, value@)));
    }
}

/// The values of a column with their frequencies, the most frequent first.
pub fn count_values(rows: &[Vec<String>], col: usize) -> (found: Vec<(String, usize)>)
    ensures
        found.deep_view() == tallies(rows.deep_view(), col as int, rows.len() as int),
{
    let ghost data = rows.deep_view();
    let n: usize = rows.len();
    let mut found: Vec<(String, usize)> = Vec::new();
    let mut row: usize = 0;
    assert(found.deep_view() =~= tallies(data, col as int, 0));
    while row < n
        invariant
            row <= n == rows.len(),
            data == rows.deep_view(),
            found.deep_view() == tallies(data, col as int, row as int),
        decreases n - row,
    {
        let ghost before = found.deep_view();
        match get_cell(rows, row, col) {
            Some(value) => {
                let mut earlier: usize = 0;
                let mut total: usize = 0;
                let mut j: usize = 0;
                while j < n
                    invariant
                        j <= n == rows.len(),
                        row < n,
                        data == rows.deep_view(),
                        total == occurrences(data, col as int, value@, j as int),
                        total <= j,
                        earlier == occurrences(
                            data,
                            col as int,
                            value@,
                            if j < row {
                                j as int
                            } else {
                                row as int
                            },
                        ),
                        earlier <= j,
                    decreases n - j,
                {
                    let same = match get_cell(rows, j, col) {
                        Some(other) => str_eq(other.as_str(), value.as_str()),
                        None => false,
                    };
                    assert(same == (cell(data, j as int, col as int) == Some(value@)));
                    if same {
                        total += 1;
                        if j < row {
                            earlier += 1;
                        }
                    }
                    j += 1;
                }
                if earlier == 0 {
                    let mut place: usize = 0;
                    while place < found.len() && found[place].1 >= total
                        invariant
                            place <= found.len(),
                            found.deep_view() == before,
                            tally_place(before, total, 0) == tally_place(
                                before,
                                total,
                                place as int,
                            ),
                        decreases found.len() - place,
                    {
                        assert(before[place as int].1 == found[place as int].1);
                        place += 1;
                    }
                    if place < found.len() {
                        assert(before[place as int].1 == found[place as int].1);
                    }
                    let entry = (value.clone(), total);
                    found.insert(place, entry);
                    assert(found.deep_view() =~= before.insert(place as int, (value@, total)));
                }
            },
            None => {},
        }
        row += 1;
    }
    found
}

/// The details and the histogram of the distribution of column `col`, whose
/// name is `name`.
pub fn column_report(name: &String, rows: &[Vec<String>], col: usize) -> (report: (
    Json,
    Visualization,
))
    ensures
        report.0@ == column_distribution(rows.deep_view(), col as int),
        report.1.deep_view() == histogram(name@, rows.deep_view(), col as int),
{
    let ghost data = rows.deep_view();
    let ghost top = top_values(data, col as int);
    let found = count_values(rows, col);
    let shown: usize = if found.len() > 10 {
        10
    } else {
        found.len()
    };
    assert(top =~= found.deep_view().subrange(0, shown as int));
    let mut pairs: Vec<Json> = Vec::new();
    let mut labels: Vec<Json> = Vec::new();
    let mut counts: Vec<Json> = Vec::new();
    let mut k: usize = 0;
    while k < shown
        invariant
            k <= shown <= found.len(),
            top == found.deep_view().subrange(0, shown as int),
            pairs.len() == k,
            labels.len() == k,
            counts.len() == k,
            forall|m: int| 0 <= m < k ==> (#[trigger] pairs[m])@ == pair_docs(top)[m],
            forall|m: int| 0 <= m < k ==> (#[trigger] labels[m])@ == label_docs(top)[m],
            forall|m: int| 0 <= m < k ==> (#[trigger] counts[m])@ == count_docs(top)[m],
        decreases shown - k,
    {
        assert(top[k as int] == found.deep_view()[k as int]);
        assert(found.deep_view()[k as int] == (found[k as int].0@, found[k as int].1));
        let value = Json::Text(found[k].0.clone());
        let count = number_json(found[k].1);
        let ghost both = seq![value@, count@];
        let pair = Json::Array(vec![value, count]);
        assert(pair@->Array_0 =~= both);
        pairs.push(pair);
        labels.push(Json::Text(found[k].0.clone()));
        counts.push(number_json(found[k].1));
        k += 1;
    }
    let pair_list = Json::Array(pairs);
    assert(pair_list@->Array_0 =~= pair_docs(top));
    let label_list = Json::Array(labels);
    assert(label_list@->Array_0 =~= label_docs(top));
    let count_list = Json::Array(counts);
    assert(count_list@->Array_0 =~= count_docs(top));
    let details = Json::Object(
        vec![
            member("unique_values", number_json(found.len())),
            member("total_values", number_json(rows.len())),
            member("top_values", pair_list),
        ],
    );
    assert(details@->Object_0 =~= column_distribution(data, col as int)->Object_0);
    let drawn = Json::Object(vec![member("labels", label_list), member("values", count_list)]);
    assert(drawn@->Object_0 =~= histogram(name@, data, col as int).data->Object_0);
    let mut title = String::from_str("Distribution of ");
    title.append(name.as_str());
    let picture = Visualization { viz_type: String::from_str("histogram"), title, data: drawn };
    (details, picture)
}

/// The analyzer of data.
#[derive(Debug)]
pub struct DataAnalyzer;

impl DataAnalyzer {
    /// An analyzer.
    pub fn new() -> (analyzer: DataAnalyzer) {
        DataAnalyzer
    }

    /// The columns that a scope stands for.
    pub fn get_target_column_indices(&self, headers: &[String], scope: &TargetScope) -> (r:
        Result<Vec<usize>, TransformError>)
        ensures
            columns_view(r) == target_columns(headers.deep_view(), scope.deep_view()),
    {
        DataTransformer::new().get_target_column_indices(headers, scope)
    }

    /// The rows that repeat an earlier row, each with the first row that it
    /// repeats; of these rows the first hundred are listed. Rows are
    /// compared by their cells joined with bars.
    pub fn detect_duplicates(&self, rows: &[Vec<String>]) -> (result: AnalysisResult)
        ensures
            result.details@ == duplicates_details(rows.deep_view()),
            result.summary@ == duplicates_summary(
                repeat_entries(rows.deep_view(), rows.len() as int).len(),
                rows.len() as nat,
            ),
            result.visualizations.len() == 0,
    {
        let ghost data = rows.deep_view();
        let mut keys: Vec<Vec<char>> = Vec::new();
        let mut entries: Vec<Json> = Vec::new();
        let mut unique: usize = 0;
        let mut row: usize = 0;
        while row < rows.len()
            invariant
                row <= rows.len(),
                data == rows.deep_view(),
                keys.len() == row,
                forall|k: int| 0 <= k < row ==> (#[trigger] keys[k])@ == row_key(data[k]),
                entries.len() <= 100,
                entries.len() == repeat_entries(data, row as int).len(),
                forall|k: int|
                    0 <= k < entries.len() ==> (#[trigger] entries[k])@ == repeat_entries(
                        data,
                        row as int,
                    )[k],
                unique == new_rows(data, row as int),
                unique <= row,
            decreases rows.len() - row,
        {
            let key = key_of(&rows[row]);
            let mut found: Option<usize> = None;
            let mut j: usize = 0;
            while j < row && found.is_none()
                invariant
                    j <= row == keys.len(),
                    row < rows.len(),
                    data == rows.deep_view(),
                    key@ == row_key(data[row as int]),
                    forall|k: int| 0 <= k < row ==> (#[trigger] keys[k])@ == row_key(data[k]),
                    match found {
                        Some(at) => first_equal(data, row as int) == Some(at as int) && at < row,
                        None => first_equal(data, row as int) == first_equal_from(
                            data,
                            row as int,
                            j as int,
                        ),
                    },
                decreases row - j + (if found is None { 1int } else { 0int }),
            {
                if chars_eq(&keys[j], &key) {
                    found = Some(j);
                } else {
                    j += 1;
                }
            }
            match found {
                Some(of) => {
                    if entries.len() < 100 {
                        let entry = Json::Object(
                            vec![
                                member("row", number_json(row)),
                                member("duplicate_of", number_json(of)),
                            ],
                        );
                        assert(entry@->Object_0 =~= repeat_entry(row as int, of as int)->Object_0);
                        entries.push(entry);
                    }
                },
                None => {
                    unique += 1;
                },
            }
            keys.push(key);
            row += 1;
        }
        let listed = entries.len();
        let list = Json::Array(entries);
        assert(list@->Array_0 =~= repeat_entries(data, rows.len() as int));
        let details = Json::Object(
            vec![
                member("duplicates", list),
                member("total_rows", number_json(rows.len())),
                member("unique_rows", number_json(unique)),
            ],
        );
        assert(details@->Object_0 =~= duplicates_details(data)->Object_0);
        let mut summary = String::from_str("Found ");
        push_decimal(&mut summary, listed);
        summary.append(" duplicate row(s) out of ");
        push_decimal(&mut summary, rows.len());
        summary.append(" total rows.");
        AnalysisResult { summary, details, visualizations: Vec::new() }
    }

    /// The distribution of the values of each of `columns`: how many
    /// different values a column holds, and its ten most frequent values
    /// with their frequencies, also as a histogram. A column that the table
    /// does not have is passed over.
    pub fn compute_distribution(
        &self,
        headers: &[String],
        rows: &[Vec<String>],
        columns: &Vec<usize>,
    ) -> (result: AnalysisResult)
        ensures
            distribution_found(result, headers.deep_view(), rows.deep_view(), columns@),
    {
        let ghost names = headers.deep_view();
        let ghost data = rows.deep_view();
        let mut members: Vec<(String, Json)> = Vec::new();
        let mut pictures: Vec<Visualization> = Vec::new();
        let mut i: usize = 0;
        assert(members.deep_view() =~= distribution_members(names, data, columns@, 0));
        assert(pictures.deep_view() =~= distribution_pictures(names, data, columns@, 0));
        while i < columns.len()
            invariant
                i <= columns.len(),
                names == headers.deep_view(),
                data == rows.deep_view(),
                members.deep_view() == distribution_members(names, data, columns@, i as int),
                pictures.deep_view() == distribution_pictures(names, data, columns@, i as int),
            decreases columns.len() - i,
        {
            let col = columns[i];
            if col < headers.len() {
                let ghost drawn = pictures.deep_view();
                let (details, picture) = column_report(&headers[col], rows, col);
                put_member(&mut members, headers[col].clone(), details);
                pictures.push(picture);
                assert(pictures.deep_view() =~= drawn.push(
                    histogram(names[col as int], data, col as int),
                ));
            }
            i += 1;
        }
        let mut summary = String::from_str("Distribution analysis completed for ");
        push_decimal(&mut summary, columns.len());
        summary.append(" column(s).");
        let details = Json::Object(members);
        assert(details@->Object_0 =~= members.deep_view());
        AnalysisResult { summary, details, visualizations: pictures }
    }

    /// Carries out an analysis within a scope. The search for duplicate
    /// rows, which looks at whole rows whatever the scope, and the analysis
    /// of distributions are carried out here; a correlation and a summary
    /// look at no scope, and the other analyses only at whether its columns
    /// are found.
    pub fn analyze(
        &self,
        analysis_type: &AnalysisType,
        headers: &[String],
        rows: &[Vec<String>],
        scope: &TargetScope,
    ) -> (r: Result<AnalysisResult, AnalysisError>)
        ensures
            match *analysis_type {
                AnalysisType::Duplicates => r is Ok && r->Ok_0.details@ == duplicates_details(
                    rows.deep_view(),
                ) && r->Ok_0.summary@ == duplicates_summary(
                    repeat_entries(rows.deep_view(), rows.len() as int).len(),
                    rows.len() as nat,
                ) && r->Ok_0.visualizations.len() == 0,
                AnalysisType::Summary | AnalysisType::Correlation => r == Err::<
                    AnalysisResult,
                    AnalysisError,
                >(AnalysisError::NotHere),
                AnalysisType::Distribution => match target_columns(
                    headers.deep_view(),
                    scope.deep_view(),
                ) {
                    Ok(columns) => r is Ok && distribution_found(
                        r->Ok_0,
                        headers.deep_view(),
                        rows.deep_view(),
                        columns,
                    ),
                    Err(e) => r is Err && r->Err_0 is Columns && r->Err_0->Columns_0.deep_view()
                        == e,
                },
                _ => match target_columns(headers.deep_view(), scope.deep_view()) {
                    Ok(columns) => r == Err::<AnalysisResult, AnalysisError>(AnalysisError::NotHere),
                    Err(e) => r is Err && r->Err_0 is Columns && r->Err_0->Columns_0.deep_view()
                        == e,
                },
            },
    {
        match analysis_type {
            AnalysisType::Duplicates => Ok(self.detect_duplicates(rows)),
            AnalysisType::Summary => Err(AnalysisError::NotHere),
            AnalysisType::Correlation => Err(AnalysisError::NotHere),
            AnalysisType::Distribution => match self.get_target_column_indices(headers, scope) {
                Ok(columns) => {
                    assert(columns.deep_view() =~= columns@);
                    Ok(self.compute_distribution(headers, rows, &columns))
                },
                Err(e) => Err(AnalysisError::Columns(e)),
            },
            _ => match self.get_target_column_indices(headers, scope) {
                Ok(_) => Err(AnalysisError::NotHere),
                Err(e) => Err(AnalysisError::Columns(e)),
            },
        }
    }
}

} // verus!
