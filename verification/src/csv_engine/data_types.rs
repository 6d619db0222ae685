//! The kinds of value that a cell may hold, found by the look of the value.
//!
//! A value is tried against the kinds in a fixed order and is of the first
//! kind that fits: boolean, integer, number with a fraction, date, date with
//! time, mail address, web address, JSON, and text where nothing else fits.

use vstd::prelude::*;
use vstd::string::*;
use crate::csv_engine::table::{cell, get_cell};
use crate::dates::{is_date, is_datetime, parsed_date, reads_as_datetime};
use crate::json::{json_document, Json};
use crate::pattern::{compile, is_match, pattern_compiles, pattern_matches, regex_source, Pattern};
use crate::text::{
    eq_ignore_ascii_case, is_float_text, is_i64_text, same_ignoring_ascii_case, str_is_float,
    str_is_i64, to_chars,
};

verus! {

/// The kinds of value.
#[derive(Clone, Copy, Debug, PartialEq, Eq, Hash, Structural)]
pub enum DataType {
    Integer,
    Float,
    Boolean,
    Date,
    DateTime,
    Email,
    Url,
    Json,
    Text,
}

/// The pattern of a mail address.
pub open spec fn email_pattern() -> Seq<char> {
    r"^[a-zA-Z0-9._%+-]+@[a-zA-Z0-9.-]+\.[a-zA-Z]{2,}$"@
}

/// The pattern of a web address.
pub open spec fn url_pattern() -> Seq<char> {
    r"^https?://[^\s/$.?#].[^\s]*$"@
}

/// Whether a value says `true` or `false`, in any case of the letters.
pub open spec fn is_boolean(value: Seq<char>) -> bool {
    same_ignoring_ascii_case(value, "true"@) || same_ignoring_ascii_case(value, "false"@)
}

/// Whether a value is a date: year, month and day with dashes, or day, month
/// and year with slashes, or month, day and year with slashes.
pub open spec fn is_date_value(value: Seq<char>) -> bool {
    parsed_date(value, "%Y-%m-%d"@) is Some || parsed_date(value, "%d/%m/%Y"@) is Some
        || parsed_date(value, "%m/%d/%Y"@) is Some
}

/// Whether a value is a date with a time, with a space or a `T` between
/// them.
pub open spec fn is_datetime_value(value: Seq<char>) -> bool {
    reads_as_datetime(value, "%Y-%m-%d %H:%M:%S"@) || reads_as_datetime(
        value,
        "%Y-%m-%dT%H:%M:%S"@,
    )
}

/// Whether a value matches a pattern that may be missing.
pub open spec fn fits(pattern: Option<Seq<char>>, value: Seq<char>) -> bool {
    match pattern {
        Some(p) => pattern_matches(p, value),
        None => false,
    }
}

/// Whether a value stands in braces or in brackets.
pub open spec fn is_bracketed(value: Seq<char>) -> bool {
    value.len() > 0 && ((value[0] == '{' && value.last() == '}') || (value[0] == '['
        && value.last() == ']'))
}

/// The kind of a value, given the patterns for mail and web addresses.
pub open spec fn value_type(email: Option<Seq<char>>, url: Option<Seq<char>>, value: Seq<char>) -> DataType {
    if value.len() == 0 {
        DataType::Text
    } else if is_boolean(value) {
        DataType::Boolean
    } else if is_i64_text(value) {
        DataType::Integer
    } else if is_float_text(value) {
        DataType::Float
    } else if is_date_value(value) {
        DataType::Date
    } else if is_datetime_value(value) {
        DataType::DateTime
    } else if fits(email, value) {
        DataType::Email
    } else if fits(url, value) {
        DataType::Url
    } else if is_bracketed(value) && json_document(value) is Some {
        DataType::Json
    } else {
        DataType::Text
    }
}

/// Whether a value is of a kind. An empty value is of every kind.
pub open spec fn value_is(
    email: Option<Seq<char>>,
    url: Option<Seq<char>>,
    value: Seq<char>,
    data_type: DataType,
) -> bool {
    value.len() == 0 || match data_type {
        DataType::Integer => is_i64_text(value),
        DataType::Float => is_float_text(value),
        DataType::Boolean => is_boolean(value),
        DataType::Date => is_date_value(value),
        DataType::DateTime => is_datetime_value(value),
        DataType::Email => fits(email, value),
        DataType::Url => fits(url, value),
        DataType::Json => json_document(value) is Some,
        DataType::Text => true,
    }
}

/// The place of a kind in the order of the kinds.
pub open spec fn type_index(data_type: DataType) -> int {
    match data_type {
        DataType::Integer => 0,
        DataType::Float => 1,
        DataType::Boolean => 2,
        DataType::Date => 3,
        DataType::DateTime => 4,
        DataType::Email => 5,
        DataType::Url => 6,
        DataType::Json => 7,
        DataType::Text => 8,
    }
}

/// The kind at a place in the order of the kinds.
pub open spec fn type_at(index: int) -> DataType {
    if index == 0 {
        DataType::Integer
    } else if index == 1 {
        DataType::Float
    } else if index == 2 {
        DataType::Boolean
    } else if index == 3 {
        DataType::Date
    } else if index == 4 {
        DataType::DateTime
    } else if index == 5 {
        DataType::Email
    } else if index == 6 {
        DataType::Url
    } else if index == 7 {
        DataType::Json
    } else {
        DataType::Text
    }
}

/// How many of the first `upto` values are not empty and of the kind at
/// place `index`.
pub open spec fn type_count(
    email: Option<Seq<char>>,
    url: Option<Seq<char>>,
    values: Seq<Seq<char>>,
    index: int,
    upto: int,
) -> nat
    decreases upto,
{
    if upto <= 0 {
        0
    } else if upto <= values.len() && values[upto - 1].len() > 0 && type_index(
        value_type(email, url, values[upto - 1]),
    ) == index {
        type_count(email, url, values, index, upto - 1) + 1
    } else {
        type_count(email, url, values, index, upto - 1)
    }
}

/// The first place among the first `upto` with the largest count.
pub open spec fn first_largest(counts: Seq<nat>, upto: int) -> int
    decreases upto,
{
    if upto <= 1 {
        0
    } else {
        let before = first_largest(counts, upto - 1);
        if upto <= counts.len() && counts[upto - 1] > counts[before] {
            upto - 1
        } else {
            before
        }
    }
}

/// The counts of the nine kinds among the values.
pub open spec fn type_counts(email: Option<Seq<char>>, url: Option<Seq<char>>, values: Seq<Seq<char>>) -> Seq<
    nat,
> {
    Seq::new(9, |index: int| type_count(email, url, values, index, values.len() as int))
}

/// The kind of a column: the kind that most of its values that are not
/// empty are of; of several such kinds the first in the order of the kinds;
/// text where no value is left.
pub open spec fn column_type(email: Option<Seq<char>>, url: Option<Seq<char>>, values: Seq<Seq<char>>) -> DataType {
    let counts = type_counts(email, url, values);
    let best = first_largest(counts, 9);
    if counts[best] == 0 {
        DataType::Text
    } else {
        type_at(best)
    }
}

/// The place of a kind in the order of the kinds.
pub fn index_of_type(data_type: DataType) -> (index: usize)
    ensures
        index == type_index(data_type),
        index < 9,
        type_at(index as int) == data_type,
{
    match data_type {
        DataType::Integer => 0,
        DataType::Float => 1,
        DataType::Boolean => 2,
        DataType::Date => 3,
        DataType::DateTime => 4,
        DataType::Email => 5,
        DataType::Url => 6,
        DataType::Json => 7,
        DataType::Text => 8,
    }
}

/// The kind at a place in the order of the kinds.
pub fn type_of_index(index: usize) -> (data_type: DataType)
    ensures
        data_type == type_at(index as int),
{
    if index == 0 {
        DataType::Integer
    } else if index == 1 {
        DataType::Float
    } else if index == 2 {
        DataType::Boolean
    } else if index == 3 {
        DataType::Date
    } else if index == 4 {
        DataType::DateTime
    } else if index == 5 {
        DataType::Email
    } else if index == 6 {
        DataType::Url
    } else if index == 7 {
        DataType::Json
    } else {
        DataType::Text
    }
}

/// The name of a kind.
pub open spec fn type_label(data_type: DataType) -> Seq<char> {
    match data_type {
        DataType::Integer => "Integer"@,
        DataType::Float => "Float"@,
        DataType::Boolean => "Boolean"@,
        DataType::Date => "Date"@,
        DataType::DateTime => "DateTime"@,
        DataType::Email => "Email"@,
        DataType::Url => "Url"@,
        DataType::Json => "Json"@,
        DataType::Text => "Text"@,
    }
}

/// The name of a kind.
pub fn name_of_type(data_type: DataType) -> (name: &'static str)
    ensures
        name@ == type_label(data_type),
{
    match data_type {
        DataType::Integer => "Integer",
        DataType::Float => "Float",
        DataType::Boolean => "Boolean",
        DataType::Date => "Date",
        DataType::DateTime => "DateTime",
        DataType::Email => "Email",
        DataType::Url => "Url",
        DataType::Json => "Json",
        DataType::Text => "Text",
    }
}

/// The detector of kinds.
pub struct DataTypeDetector {
    email_regex: Option<Pattern>,
    url_regex: Option<Pattern>,
}

/// The pattern of a compiled expression that may be missing.
pub open spec fn source_of(re: Option<Pattern>) -> Option<Seq<char>> {
    match re {
        Some(r) => Some(regex_source(r)),
        None => None,
    }
}

/// A pattern where it is accepted as a regular expression.
pub open spec fn accepted(pattern: Seq<char>) -> Option<Seq<char>> {
    if pattern_compiles(pattern) {
        Some(pattern)
    } else {
        None
    }
}

impl DataTypeDetector {
    /// The pattern by which mail addresses are known, if there is one.
    pub closed spec fn email(&self) -> Option<Seq<char>> {
        source_of(self.email_regex)
    }

    /// The pattern by which web addresses are known, if there is one.
    pub closed spec fn url(&self) -> Option<Seq<char>> {
        source_of(self.url_regex)
    }

    /// A detector with the patterns for mail and web addresses. A pattern
    /// that is not accepted as a regular expression is left out, and no
    /// value is then of its kind.
    pub fn new() -> (detector: DataTypeDetector)
        ensures
            detector.email() == accepted(email_pattern()),
            detector.url() == accepted(url_pattern()),
    {
        DataTypeDetector {
            email_regex: compile(r"^[a-zA-Z0-9._%+-]+@[a-zA-Z0-9.-]+\.[a-zA-Z]{2,}$"),
            url_regex: compile(r"^https?://[^\s/$.?#].[^\s]*$"),
        }
    }

    /// Whether a value says `true` or `false`.
    fn check_boolean(value: &str) -> (b: bool)
        ensures
            b == is_boolean(value@),
    {
        let v = to_chars(value);
        eq_ignore_ascii_case(&v, &to_chars("true")) || eq_ignore_ascii_case(&v, &to_chars("false"))
    }

    /// Whether a value is a date.
    fn check_date(value: &str) -> (b: bool)
        ensures
            b == is_date_value(value@),
    {
        is_date(value, "%Y-%m-%d") || is_date(value, "%d/%m/%Y") || is_date(value, "%m/%d/%Y")
    }

    /// Whether a value is a date with a time.
    fn check_datetime(value: &str) -> (b: bool)
        ensures
            b == is_datetime_value(value@),
    {
        is_datetime(value, "%Y-%m-%d %H:%M:%S") || is_datetime(value, "%Y-%m-%dT%H:%M:%S")
    }

    /// Whether a value matches a pattern that may be missing.
    fn check_pattern(re: &Option<Pattern>, value: &str) -> (b: bool)
        ensures
            b == fits(source_of(*re), value@),
    {
        match re {
            Some(r) => is_match(r, value),
            None => false,
        }
    }

    /// Whether a value stands in braces or in brackets.
    fn check_bracketed(value: &str) -> (b: bool)
        ensures
            b == is_bracketed(value@),
    {
        let v = to_chars(value);
        if v.len() == 0 {
            return false;
        }
        let first = v[0];
        let last = v[v.len() - 1];
        (first == '{' && last == '}') || (first == '[' && last == ']')
    }

    /// The kind of a value.
    pub fn detect_value_type(&self, value: &str) -> (data_type: DataType)
        ensures
            data_type == value_type(self.email(), self.url(), value@),
    {
        if value.is_empty() {
            return DataType::Text;
        }
        if DataTypeDetector::check_boolean(value) {
            return DataType::Boolean;
        }
        if str_is_i64(value) {
            return DataType::Integer;
        }
        if str_is_float(value) {
            return DataType::Float;
        }
        if DataTypeDetector::check_date(value) {
            return DataType::Date;
        }
        if DataTypeDetector::check_datetime(value) {
            return DataType::DateTime;
        }
        if DataTypeDetector::check_pattern(&self.email_regex, value) {
            return DataType::Email;
        }
        if DataTypeDetector::check_pattern(&self.url_regex, value) {
            return DataType::Url;
        }
        if DataTypeDetector::check_bracketed(value) && Json::parse(value).is_some() {
            return DataType::Json;
        }
        DataType::Text
    }

    /// Whether a value is of a kind. An empty value is of every kind.
    pub fn validate_value(&self, value: &str, data_type: &DataType) -> (valid: bool)
        ensures
            valid == value_is(self.email(), self.url(), value@, *data_type),
    {
        if value.is_empty() {
            return true;
        }
        match data_type {
            DataType::Integer => str_is_i64(value),
            DataType::Float => str_is_float(value),
            DataType::Boolean => DataTypeDetector::check_boolean(value),
            DataType::Date => DataTypeDetector::check_date(value),
            DataType::DateTime => DataTypeDetector::check_datetime(value),
            DataType::Email => DataTypeDetector::check_pattern(&self.email_regex, value),
            DataType::Url => DataTypeDetector::check_pattern(&self.url_regex, value),
            DataType::Json => Json::parse(value).is_some(),
            DataType::Text => true,
        }
    }

    /// How many of the values are of each kind, empty values apart.
    pub fn count_types(&self, values: &[String]) -> (counts: Vec<usize>)
        ensures
            counts.len() == 9,
            forall|k: int|
                0 <= k < 9 ==> (#[trigger] counts[k]) == type_counts(
                    self.email(),
                    self.url(),
                    values.deep_view(),
                )[k],
    {
        let mut counts: Vec<usize> = vec![0, 0, 0, 0, 0, 0, 0, 0, 0];
        let mut i: usize = 0;
        while i < values.len()
            invariant
                i <= values.len(),
                counts.len() == 9,
                forall|k: int|
                    0 <= k < 9 ==> (#[trigger] counts[k]) == type_count(
                        self.email(),
                        self.url(),
                        values.deep_view(),
                        k,
                        i as int,
                    ) && counts[k] <= i,
            decreases values.len() - i,
        {
            if !values[i].as_str().is_empty() {
                let found = index_of_type(self.detect_value_type(values[i].as_str()));
                let n = counts[found];
                counts.set(found, n + 1);
            }
            i += 1;
        }
        counts
    }

    /// The first place with the largest count.
    pub fn largest(counts: &Vec<usize>) -> (best: usize)
        requires
            counts.len() == 9,
        ensures
            best < 9,
            best == first_largest(Seq::new(9, |k: int| counts[k] as nat), 9),
    {
        let ghost model = Seq::new(9, |k: int| counts[k] as nat);
        let mut best: usize = 0;
        let mut k: usize = 1;
        while k < 9
            invariant
                1 <= k <= 9,
                best < k,
                counts.len() == 9,
                model == Seq::new(9, |k: int| counts[k] as nat),
                best == first_largest(model, k as int),
            decreases 9 - k,
        {
            if counts[k] > counts[best] {
                best = k;
            }
            k += 1;
        }
        best
    }

    /// The kind of a column.
    pub fn detect_column_type(&self, values: &[String]) -> (data_type: DataType)
        ensures
            data_type == column_type(self.email(), self.url(), values.deep_view()),
    {
        let counts = self.count_types(values);
        let best = DataTypeDetector::largest(&counts);
        assert(Seq::new(9, |k: int| counts[k] as nat) =~= type_counts(
            self.email(),
            self.url(),
            values.deep_view(),
        ));
        if counts[best] == 0 {
            DataType::Text
        } else {
            type_of_index(best)
        }
    }
}

/// The kind of a column with some of its values.
#[derive(Clone, Debug, PartialEq, Eq)]
pub struct ColumnTypeInfo {
    pub column_index: usize,
    pub column_name: String,
    pub detected_type: DataType,
    pub sample_values: Vec<String>,
}

/// The mathematical value of a [`ColumnTypeInfo`].
pub struct ColumnTypeInfoView {
    pub column_index: usize,
    pub column_name: Seq<char>,
    pub detected_type: DataType,
    pub sample_values: Seq<Seq<char>>,
}

impl DeepView for ColumnTypeInfo {
    type V = ColumnTypeInfoView;

    open spec fn deep_view(&self) -> ColumnTypeInfoView {
        ColumnTypeInfoView {
            column_index: self.column_index,
            column_name: self.column_name@,
            detected_type: self.detected_type,
            sample_values: self.sample_values.deep_view(),
        }
    }
}

/// A value that is not of the kind that its column should have.
#[derive(Clone, Debug, PartialEq, Eq)]
pub struct TypeError {
    pub row_index: usize,
    pub column_index: usize,
    pub value: String,
    pub expected_type: DataType,
    pub message: String,
}

/// The mathematical value of a [`TypeError`].
pub struct TypeErrorView {
    pub row_index: usize,
    pub column_index: usize,
    pub value: Seq<char>,
    pub expected_type: DataType,
    pub message: Seq<char>,
}

impl DeepView for TypeError {
    type V = TypeErrorView;

    open spec fn deep_view(&self) -> TypeErrorView {
        TypeErrorView {
            row_index: self.row_index,
            column_index: self.column_index,
            value: self.value@,
            expected_type: self.expected_type,
            message: self.message@,
        }
    }
}

/// What a check of the kinds of values found.
#[derive(Clone, Debug, PartialEq, Eq)]
pub struct ValidationResult {
    pub is_valid: bool,
    pub errors: Vec<TypeError>,
}

/// The name of a kind in lower case.
pub open spec fn type_word(data_type: DataType) -> Seq<char> {
    match data_type {
        DataType::Integer => "integer"@,
        DataType::Float => "float"@,
        DataType::Boolean => "boolean"@,
        DataType::Date => "date"@,
        DataType::DateTime => "datetime"@,
        DataType::Email => "email"@,
        DataType::Url => "url"@,
        DataType::Json => "json"@,
        DataType::Text => "text"@,
    }
}

/// The cells of column `col` in the first `upto` rows, in their order.
pub open spec fn column_cells(data: Seq<Seq<Seq<char>>>, col: int, upto: int) -> Seq<Seq<char>>
    decreases upto,
{
    if upto <= 0 {
        Seq::empty()
    } else {
        match cell(data, upto - 1, col) {
            Some(v) => column_cells(data, col, upto - 1).push(v),
            None => column_cells(data, col, upto - 1),
        }
    }
}

/// How many rows the kind of a column is judged by.
pub open spec fn sample_rows(data: Seq<Seq<Seq<char>>>) -> int {
    if data.len() < 100 {
        data.len() as int
    } else {
        100
    }
}

/// The first values of a column, five at most.
pub open spec fn first_values(values: Seq<Seq<char>>) -> Seq<Seq<char>> {
    if values.len() > 5 {
        values.subrange(0, 5)
    } else {
        values
    }
}

/// The kind of column `col` with some of its values, judged by the first
/// hundred rows.
pub open spec fn column_info(
    email: Option<Seq<char>>,
    url: Option<Seq<char>>,
    headers: Seq<Seq<char>>,
    data: Seq<Seq<Seq<char>>>,
    col: int,
) -> ColumnTypeInfoView {
    let values = column_cells(data, col, sample_rows(data));
    ColumnTypeInfoView {
        column_index: col as usize,
        column_name: headers[col],
        detected_type: column_type(email, url, values),
        sample_values: first_values(values),
    }
}

/// The error for the value in row `row` against the `index`-th expectation,
/// if the value is not empty and not of the expected kind.
pub open spec fn type_error_at(
    email: Option<Seq<char>>,
    url: Option<Seq<char>>,
    data: Seq<Seq<Seq<char>>>,
    expected: Seq<(usize, DataType)>,
    row: int,
    index: int,
) -> Option<TypeErrorView> {
    let col = expected[index].0 as int;
    let kind = expected[index].1;
    if cell(data, row, col) is Some && data[row][col].len() > 0 && !value_is(
        email,
        url,
        data[row][col],
        kind,
    ) {
        Some(
            TypeErrorView {
                row_index: row as usize,
                column_index: col as usize,
                value: data[row][col],
                expected_type: kind,
                message: "Value '"@ + data[row][col] + "' is not a valid "@ + type_word(kind),
            },
        )
    } else {
        None
    }
}

/// The errors of row `row` against the first `upto` expectations.
pub open spec fn row_type_errors(
    email: Option<Seq<char>>,
    url: Option<Seq<char>>,
    data: Seq<Seq<Seq<char>>>,
    expected: Seq<(usize, DataType)>,
    row: int,
    upto: int,
) -> Seq<TypeErrorView>
    decreases upto,
{
    if upto <= 0 || upto > expected.len() {
        Seq::empty()
    } else {
        let before = row_type_errors(email, url, data, expected, row, upto - 1);
        match type_error_at(email, url, data, expected, row, upto - 1) {
            Some(e) => before.push(e),
            None => before,
        }
    }
}

/// The errors of the first `upto` rows.
pub open spec fn type_errors(
    email: Option<Seq<char>>,
    url: Option<Seq<char>>,
    data: Seq<Seq<Seq<char>>>,
    expected: Seq<(usize, DataType)>,
    upto: int,
) -> Seq<TypeErrorView>
    decreases upto,
{
    if upto <= 0 || upto > data.len() {
        Seq::empty()
    } else {
        type_errors(email, url, data, expected, upto - 1) + row_type_errors(
            email,
            url,
            data,
            expected,
            upto - 1,
            expected.len() as int,
        )
    }
}

/// The name of a kind in lower case.
pub fn word_of_type(data_type: DataType) -> (word: &'static str)
    ensures
        word@ == type_word(data_type),
{
    match data_type {
        DataType::Integer => "integer",
        DataType::Float => "float",
        DataType::Boolean => "boolean",
        DataType::Date => "date",
        DataType::DateTime => "datetime",
        DataType::Email => "email",
        DataType::Url => "url",
        DataType::Json => "json",
        DataType::Text => "text",
    }
}

impl DataTypeDetector {
    /// The kind of column `col` with some of its values.
    pub fn describe_column(&self, headers: &[String], rows: &[Vec<String>], col: usize) -> (info:
        ColumnTypeInfo)
        requires
            col < headers.len(),
        ensures
            info.deep_view() == column_info(
                self.email(),
                self.url(),
                headers.deep_view(),
                rows.deep_view(),
                col as int,
            ),
    {
        let limit: usize = if rows.len() < 100 {
            rows.len()
        } else {
            100
        };
        let mut values: Vec<String> = Vec::new();
        let mut row: usize = 0;
        assert(values.deep_view() =~= column_cells(rows.deep_view(), col as int, 0));
        while row < limit
            invariant
                row <= limit <= rows.len(),
                values.deep_view() == column_cells(rows.deep_view(), col as int, row as int),
            decreases limit - row,
        {
            let ghost before = values.deep_view();
            if let Some(value) = get_cell(rows, row, col) {
                values.push(value.clone());
                assert(values.deep_view() =~= before.push(value@));
            }
            row += 1;
        }
        let detected_type = self.detect_column_type(values.as_slice());
        let count: usize = if values.len() > 5 {
            5
        } else {
            values.len()
        };
        let mut sample_values: Vec<String> = Vec::new();
        let mut i: usize = 0;
        while i < count
            invariant
                i <= count <= values.len(),
                sample_values.len() == i,
                forall|k: int| 0 <= k < i ==> (#[trigger] sample_values[k])@ == values[k]@,
            decreases count - i,
        {
            sample_values.push(values[i].clone());
            i += 1;
        }
        assert(sample_values.deep_view() =~= first_values(values.deep_view()));
        ColumnTypeInfo {
            column_index: col,
            column_name: headers[col].clone(),
            detected_type,
            sample_values,
        }
    }

    /// The kinds of the columns that have a header.
    pub fn detect_column_types(&self, headers: &[String], rows: &[Vec<String>]) -> (infos: Vec<
        ColumnTypeInfo,
    >)
        ensures
            infos.len() == headers.len(),
            forall|col: int|
                0 <= col < headers.len() ==> (#[trigger] infos[col]).deep_view() == column_info(
                    self.email(),
                    self.url(),
                    headers.deep_view(),
                    rows.deep_view(),
                    col,
                ),
    {
        let mut infos: Vec<ColumnTypeInfo> = Vec::new();
        let mut col: usize = 0;
        while col < headers.len()
            invariant
                col <= headers.len(),
                infos.len() == col,
                forall|c: int|
                    0 <= c < col ==> (#[trigger] infos[c]).deep_view() == column_info(
                        self.email(),
                        self.url(),
                        headers.deep_view(),
                        rows.deep_view(),
                        c,
                    ),
            decreases headers.len() - col,
        {
            infos.push(self.describe_column(headers, rows, col));
            col += 1;
        }
        infos
    }

    /// Checks the values of the rows against the kinds that their columns
    /// should have, row by row and within a row in the order of the
    /// expectations. Empty values pass.
    pub fn validate_data_types(&self, rows: &[Vec<String>], column_types: &Vec<(usize, DataType)>) -> (result:
        ValidationResult)
        ensures
            result.errors.deep_view() == type_errors(
                self.email(),
                self.url(),
                rows.deep_view(),
                column_types@,
                rows.len() as int,
            ),
            result.is_valid == (result.errors.len() == 0),
    {
        let ghost data = rows.deep_view();
        let ghost expected = column_types@;
        let mut errors: Vec<TypeError> = Vec::new();
        let mut row: usize = 0;
        assert(errors.deep_view() =~= type_errors(self.email(), self.url(), data, expected, 0));
        while row < rows.len()
            invariant
                row <= rows.len(),
                data == rows.deep_view(),
                expected == column_types@,
                errors.deep_view() == type_errors(
                    self.email(),
                    self.url(),
                    data,
                    expected,
                    row as int,
                ),
            decreases rows.len() - row,
        {
            let ghost done = errors.deep_view();
            let mut k: usize = 0;
            assert(errors.deep_view() =~= done + row_type_errors(
                self.email(),
                self.url(),
                data,
                expected,
                row as int,
                0,
            ));
            while k < column_types.len()
                invariant
                    row < rows.len(),
                    k <= column_types.len(),
                    data == rows.deep_view(),
                    expected == column_types@,
                    errors.deep_view() == done + row_type_errors(
                        self.email(),
                        self.url(),
                        data,
                        expected,
                        row as int,
                        k as int,
                    ),
                decreases column_types.len() - k,
            {
                let ghost so_far = errors.deep_view();
                let col: usize = column_types[k].0;
                let kind: DataType = column_types[k].1;
                assert(expected[k as int] == (col, kind));
                if let Some(value) = get_cell(rows, row, col) {
                    if !value.as_str().is_empty() && !self.validate_value(value.as_str(), &kind) {
                        let mut message = String::from_str("Value '");
                        message.append(value.as_str());
                        message.append("' is not a valid ");
                        message.append(word_of_type(kind));
                        let error = TypeError {
                            row_index: row,
                            column_index: col,
                            value: value.clone(),
                            expected_type: kind,
                            message,
                        };
                        errors.push(error);
                        assert(errors.deep_view() =~= so_far.push(error.deep_view()));
                    }
                }
                k += 1;
                assert(errors.deep_view() =~= done + row_type_errors(
                    self.email(),
                    self.url(),
                    data,
                    expected,
                    row as int,
                    k as int,
                ));
            }
            row += 1;
        }
        let is_valid = errors.len() == 0;
        ValidationResult { is_valid, errors }
    }
}

} // verus!
