//! Finding and replacing text in the cells of a table.
//!
//! Cells are looked at row by row and within a row from left to right, in
//! all columns or in one. A search is by regular expression, by whole
//! words, or by any occurrence, the last two with or without regard to the
//! case of letters.

use vstd::prelude::*;
use vstd::string::*;
use vstd::utf8::{
    decode_utf8, encode_utf8, encode_utf8_decode_utf8, encode_utf8_valid_utf8, is_char_boundary,
    is_char_boundary_start_end_of_seq,
};
use crate::csv_engine::cells::{replace_text, replaced, split_words, words_scan};
use crate::csv_engine::editing::CsvTable;
use crate::csv_engine::table::{cell};
use crate::pattern::{
    compile, is_match, pattern_compiles, pattern_matches, regex_source, replace_all, replaced_all,
    Pattern,
};
use crate::text::{
    chars_eq, contains, join_chars, joined, lower, lowercase, str_contains, str_eq, string_of,
    to_chars, views,
};

verus! {

/// What is looked for, and how.
#[derive(Clone, Debug, PartialEq, Eq)]
pub struct FindOptions {
    pub search_text: String,
    pub case_sensitive: bool,
    pub whole_word: bool,
    pub regex: bool,
    pub column_index: Option<usize>,
}

/// The mathematical value of [`FindOptions`].
pub struct FindOptionsView {
    pub search_text: Seq<char>,
    pub case_sensitive: bool,
    pub whole_word: bool,
    pub regex: bool,
    pub column_index: Option<usize>,
}

impl DeepView for FindOptions {
    type V = FindOptionsView;

    open spec fn deep_view(&self) -> FindOptionsView {
        FindOptionsView {
            search_text: self.search_text@,
            case_sensitive: self.case_sensitive,
            whole_word: self.whole_word,
            regex: self.regex,
            column_index: self.column_index,
        }
    }
}

/// A cell that was found.
#[derive(Clone, Debug, PartialEq, Eq)]
pub struct SearchResult {
    pub row_index: usize,
    pub column_index: usize,
    pub value: String,
    /// The value, cut after 100 bytes where it is longer.
    pub context: String,
}

/// The mathematical value of a [`SearchResult`].
pub struct SearchResultView {
    pub row_index: usize,
    pub column_index: usize,
    pub value: Seq<char>,
    pub context: Seq<char>,
}

impl DeepView for SearchResult {
    type V = SearchResultView;

    open spec fn deep_view(&self) -> SearchResultView {
        SearchResultView {
            row_index: self.row_index,
            column_index: self.column_index,
            value: self.value@,
            context: self.context@,
        }
    }
}

/// What is replaced, and by what.
#[derive(Clone, Debug, PartialEq, Eq)]
pub struct ReplaceOptions {
    pub find_options: FindOptions,
    pub replace_text: String,
    pub preview_only: bool,
}

/// A cell that is or would be changed.
#[derive(Clone, Debug, PartialEq, Eq)]
pub struct ReplacePreview {
    pub row_index: usize,
    pub column_index: usize,
    pub original_value: String,
    pub new_value: String,
}

/// The mathematical value of a [`ReplacePreview`].
pub struct ReplacePreviewView {
    pub row_index: usize,
    pub column_index: usize,
    pub original_value: Seq<char>,
    pub new_value: Seq<char>,
}

impl DeepView for ReplacePreview {
    type V = ReplacePreviewView;

    open spec fn deep_view(&self) -> ReplacePreviewView {
        ReplacePreviewView {
            row_index: self.row_index,
            column_index: self.column_index,
            original_value: self.original_value@,
            new_value: self.new_value@,
        }
    }
}

/// What a replacement did.
#[derive(Clone, Debug, PartialEq, Eq)]
pub struct ReplaceResult {
    pub replaced_count: usize,
    /// The table after the replacement; nothing for a preview.
    pub data: Option<CsvTable>,
    pub preview: Vec<ReplacePreview>,
}

/// Why a search was not made.
#[derive(Clone, Copy, Debug, PartialEq, Eq, Structural)]
pub enum SearchError {
    /// The search text is not accepted as a regular expression.
    InvalidRegex,
}

/// Whether `word` is among `words`.
pub open spec fn has_word(words: Seq<Seq<char>>, word: Seq<char>) -> bool {
    exists|i: int| 0 <= i < words.len() && #[trigger] words[i] == word
}

/// Whether a value is found by a search in plain text.
pub open spec fn found_plain(options: FindOptionsView, value: Seq<char>) -> bool {
    if options.whole_word {
        if options.case_sensitive {
            has_word(words_scan(value, 0, 0), options.search_text)
        } else {
            has_word(words_scan(lowercase(value), 0, 0), lowercase(options.search_text))
        }
    } else if options.case_sensitive {
        contains(value, options.search_text)
    } else {
        contains(lowercase(value), lowercase(options.search_text))
    }
}

/// Whether a value is found by a search.
pub open spec fn found(options: FindOptionsView, value: Seq<char>) -> bool {
    if options.regex {
        pattern_matches(options.search_text, value)
    } else {
        found_plain(options, value)
    }
}

/// The largest index up to `at` at which the bytes can be cut between two
/// characters.
pub open spec fn boundary_upto(bytes: Seq<u8>, at: int) -> int
    decreases at,
{
    if at <= 0 || is_char_boundary(bytes, at) {
        at
    } else {
        boundary_upto(bytes, at - 1)
    }
}

/// A value as it is shown with a match: as it is up to 100 bytes, and else
/// its characters within the first 100 bytes and three dots.
pub open spec fn context_of(value: Seq<char>) -> Seq<char> {
    let bytes = encode_utf8(value);
    if bytes.len() as usize > 100 {
        decode_utf8(bytes.subrange(0, boundary_upto(bytes, 100))) + "..."@
    } else {
        value
    }
}

/// Whether column `col` is looked at.
pub open spec fn in_scope(column: Option<usize>, col: int) -> bool {
    match column {
        Some(c) => c == col,
        None => true,
    }
}

/// The match in the cell in row `row` and column `col`, if the cell is
/// looked at and found.
pub open spec fn match_at(options: FindOptionsView, data: Seq<Seq<Seq<char>>>, row: int, col: int) -> Option<
    SearchResultView,
> {
    if in_scope(options.column_index, col) && cell(data, row, col) is Some && found(
        options,
        data[row][col],
    ) {
        Some(
            SearchResultView {
                row_index: row as usize,
                column_index: col as usize,
                value: data[row][col],
                context: context_of(data[row][col]),
            },
        )
    } else {
        None
    }
}

/// The matches in the first `upto` cells of row `row`.
pub open spec fn row_matches(options: FindOptionsView, data: Seq<Seq<Seq<char>>>, row: int, upto: int) -> Seq<
    SearchResultView,
>
    decreases upto,
{
    if upto <= 0 {
        Seq::empty()
    } else {
        let before = row_matches(options, data, row, upto - 1);
        match match_at(options, data, row, upto - 1) {
            Some(m) => before.push(m),
            None => before,
        }
    }
}

/// The matches in the first `upto` rows.
pub open spec fn table_matches(options: FindOptionsView, data: Seq<Seq<Seq<char>>>, upto: int) -> Seq<
    SearchResultView,
>
    decreases upto,
{
    if upto <= 0 || upto > data.len() {
        Seq::empty()
    } else {
        table_matches(options, data, upto - 1) + row_matches(
            options,
            data,
            upto - 1,
            data[upto - 1].len() as int,
        )
    }
}

/// A word as it stands after a replacement of whole words.
pub open spec fn replaced_word(options: FindOptionsView, replacement: Seq<char>, word: Seq<char>) -> Seq<
    char,
> {
    let same = if options.case_sensitive {
        word == options.search_text
    } else {
        lowercase(word) == lowercase(options.search_text)
    };
    if same {
        replacement
    } else {
        word
    }
}

/// A value after a replacement of whole words: its words with one space
/// between them, each of the words that are looked for replaced.
pub open spec fn replaced_words(options: FindOptionsView, replacement: Seq<char>, value: Seq<char>) -> Seq<
    char,
> {
    let words = words_scan(value, 0, 0);
    joined(Seq::new(words.len(), |i: int| replaced_word(options, replacement, words[i])), " "@)
}

/// The value that a cell gets by a replacement; nothing where the cell is
/// not counted as replaced.
pub open spec fn replacement_of(options: FindOptionsView, replacement: Seq<char>, value: Seq<char>) -> Option<
    Seq<char>,
> {
    if options.regex {
        if pattern_matches(options.search_text, value) {
            Some(replaced_all(options.search_text, value, replacement))
        } else {
            None
        }
    } else if options.whole_word {
        let new = replaced_words(options, replacement, value);
        if new != value {
            Some(new)
        } else {
            None
        }
    } else if options.case_sensitive {
        let new = replaced(value, options.search_text, replacement);
        if new != value {
            Some(new)
        } else {
            None
        }
    } else {
        if contains(lowercase(value), lowercase(options.search_text)) {
            Some(replaced(value, options.search_text, replacement))
        } else {
            None
        }
    }
}

/// The change of the cell in row `row` and column `col`, if the cell is
/// looked at and counted as replaced.
pub open spec fn change_at(
    options: FindOptionsView,
    replacement: Seq<char>,
    data: Seq<Seq<Seq<char>>>,
    row: int,
    col: int,
) -> Option<ReplacePreviewView> {
    if in_scope(options.column_index, col) && cell(data, row, col) is Some && replacement_of(
        options,
        replacement,
        data[row][col],
    ) is Some {
        Some(
            ReplacePreviewView {
                row_index: row as usize,
                column_index: col as usize,
                original_value: data[row][col],
                new_value: replacement_of(options, replacement, data[row][col])->Some_0,
            },
        )
    } else {
        None
    }
}

/// The changes in the first `upto` cells of row `row`.
pub open spec fn row_changes(
    options: FindOptionsView,
    replacement: Seq<char>,
    data: Seq<Seq<Seq<char>>>,
    row: int,
    upto: int,
) -> Seq<ReplacePreviewView>
    decreases upto,
{
    if upto <= 0 {
        Seq::empty()
    } else {
        let before = row_changes(options, replacement, data, row, upto - 1);
        match change_at(options, replacement, data, row, upto - 1) {
            Some(c) => before.push(c),
            None => before,
        }
    }
}

/// The changes in the first `upto` rows.
pub open spec fn table_changes(
    options: FindOptionsView,
    replacement: Seq<char>,
    data: Seq<Seq<Seq<char>>>,
    upto: int,
) -> Seq<ReplacePreviewView>
    decreases upto,
{
    if upto <= 0 || upto > data.len() {
        Seq::empty()
    } else {
        table_changes(options, replacement, data, upto - 1) + row_changes(
            options,
            replacement,
            data,
            upto - 1,
            data[upto - 1].len() as int,
        )
    }
}

/// The cell in row `row` and column `col` after the replacement.
pub open spec fn value_after(
    options: FindOptionsView,
    replacement: Seq<char>,
    data: Seq<Seq<Seq<char>>>,
    row: int,
    col: int,
) -> Seq<char> {
    match change_at(options, replacement, data, row, col) {
        Some(c) => c.new_value,
        None => data[row][col],
    }
}

/// The rows after the replacement.
pub open spec fn rows_after(options: FindOptionsView, replacement: Seq<char>, data: Seq<Seq<Seq<char>>>) -> Seq<
    Seq<Seq<char>>,
> {
    Seq::new(
        data.len(),
        |row: int|
            Seq::new(
                data[row].len(),
                |col: int| value_after(options, replacement, data, row, col),
            ),
    )
}

/// Whether `word` is among `words`.
pub fn words_have(words: &Vec<Vec<char>>, word: &Vec<char>) -> (b: bool)
    ensures
        b == has_word(views(words@), word@),
{
    let mut i: usize = 0;
    while i < words.len()
        invariant
            i <= words.len(),
            forall|k: int| 0 <= k < i ==> (#[trigger] views(words@)[k]) != word@,
        decreases words.len() - i,
    {
        if chars_eq(&words[i], word) {
            assert(views(words@)[i as int] == word@);
            return true;
        }
        i += 1;
    }
    false
}

/// Whether a value is found by a search in plain text.
pub fn matches_plain(options: &FindOptions, value: &str) -> (b: bool)
    ensures
        b == found_plain(options.deep_view(), value@),
{
    if options.whole_word {
        if options.case_sensitive {
            let words = split_words(&to_chars(value));
            words_have(&words, &to_chars(options.search_text.as_str()))
        } else {
            let folded = lower(value);
            let words = split_words(&to_chars(folded.as_str()));
            let wanted = lower(options.search_text.as_str());
            words_have(&words, &to_chars(wanted.as_str()))
        }
    } else if options.case_sensitive {
        str_contains(value, options.search_text.as_str())
    } else {
        let folded = lower(value);
        let wanted = lower(options.search_text.as_str());
        str_contains(folded.as_str(), wanted.as_str())
    }
}

/// A value as it is shown with a match.
pub fn context_for(value: &str) -> (context: String)
    ensures
        context@ == context_of(value@),
{
    if value.len() > 100 {
        let ghost bytes = encode_utf8(value@);
        let mut at: usize = 100;
        while at > 0 && !value.is_char_boundary(at)
            invariant
                at <= 100,
                bytes == encode_utf8(value@),
                boundary_upto(bytes, 100) == boundary_upto(bytes, at as int),
            decreases at,
        {
            at -= 1;
        }
        proof {
            encode_utf8_valid_utf8(value@);
            is_char_boundary_start_end_of_seq(bytes);
        }
        let (prefix, _rest) = value.split_at(at);
        proof {
            encode_utf8_decode_utf8(prefix@);
        }
        let mut context = String::from_str(prefix);
        context.append("...");
        context
    } else {
        String::from_str(value)
    }
}

/// The regular expression of a search that is by regular expression.
pub fn search_pattern(options: &FindOptions) -> (r: Result<Option<Pattern>, SearchError>)
    ensures
        match r {
            Ok(Some(re)) => options.regex && regex_source(re) == options.search_text@,
            Ok(None) => !options.regex,
            Err(e) => e == SearchError::InvalidRegex,
        },
        r is Err <==> options.regex && !pattern_compiles(options.search_text@),
{
    if options.regex {
        match compile(options.search_text.as_str()) {
            Some(re) => Ok(Some(re)),
            None => Err(SearchError::InvalidRegex),
        }
    } else {
        Ok(None)
    }
}

/// The cells that a search finds.
pub fn find_in_csv(data: &CsvTable, options: &FindOptions) -> (r: Result<
    Vec<SearchResult>,
    SearchError,
>)
    ensures
        if options.regex && !pattern_compiles(options.search_text@) {
            r == Err::<Vec<SearchResult>, SearchError>(SearchError::InvalidRegex)
        } else {
            r is Ok && r->Ok_0.deep_view() == table_matches(
                options.deep_view(),
                data.rows.deep_view(),
                data.rows.len() as int,
            )
        },
{
    let pattern = match search_pattern(options) {
        Ok(p) => p,
        Err(e) => {
            return Err(e);
        },
    };
    let ghost model = options.deep_view();
    let ghost table = data.rows.deep_view();
    let mut results: Vec<SearchResult> = Vec::new();
    let mut row: usize = 0;
    assert(results.deep_view() =~= table_matches(model, table, 0));
    while row < data.rows.len()
        invariant
            row <= data.rows.len(),
            !(options.regex && !pattern_compiles(options.search_text@)),
            model == options.deep_view(),
            table == data.rows.deep_view(),
            match pattern {
                Some(re) => options.regex && regex_source(re) == options.search_text@,
                None => !options.regex,
            },
            results.deep_view() == table_matches(model, table, row as int),
        decreases data.rows.len() - row,
    {
        let ghost done = results.deep_view();
        let width: usize = data.rows[row].len();
        let mut col: usize = 0;
        assert(results.deep_view() =~= done + row_matches(model, table, row as int, 0));
        while col < width
            invariant
                row < data.rows.len(),
                col <= width == data.rows[row as int].len(),
                width == table[row as int].len(),
                model == options.deep_view(),
                table == data.rows.deep_view(),
                match pattern {
                    Some(re) => options.regex && regex_source(re) == options.search_text@,
                    None => !options.regex,
                },
                results.deep_view() == done + row_matches(model, table, row as int, col as int),
            decreases width - col,
        {
            let ghost so_far = results.deep_view();
            let looked_at = match options.column_index {
                Some(c) => c == col,
                None => true,
            };
            if looked_at {
                let value = &data.rows[row][col];
                assert(table[row as int][col as int] == value@);
                let hit = match &pattern {
                    Some(re) => is_match(re, value.as_str()),
                    None => matches_plain(options, value.as_str()),
                };
                if hit {
                    let result = SearchResult {
                        row_index: row,
                        column_index: col,
                        value: value.clone(),
                        context: context_for(value.as_str()),
                    };
                    results.push(result);
                    assert(results.deep_view() =~= so_far.push(result.deep_view()));
                }
            }
            col += 1;
            assert(results.deep_view() =~= done + row_matches(model, table, row as int, col as int));
        }
        row += 1;
    }
    Ok(results)
}

/// A value after a replacement of whole words.
pub fn replace_words(options: &FindOptions, replacement: &String, value: &str) -> (r: String)
    ensures
        r@ == replaced_words(options.deep_view(), replacement@, value@),
{
    let words = split_words(&to_chars(value));
    let wanted_folded = lower(options.search_text.as_str());
    let mut out: Vec<Vec<char>> = Vec::new();
    let mut i: usize = 0;
    while i < words.len()
        invariant
            i <= words.len(),
            wanted_folded@ == lowercase(options.search_text@),
            out.len() == i,
            forall|k: int|
                0 <= k < i ==> (#[trigger] out[k])@ == replaced_word(
                    options.deep_view(),
                    replacement@,
                    words[k]@,
                ),
        decreases words.len() - i,
    {
        let word = string_of(&words[i]);
        let same = if options.case_sensitive {
            str_eq(word.as_str(), options.search_text.as_str())
        } else {
            let folded = lower(word.as_str());
            str_eq(folded.as_str(), wanted_folded.as_str())
        };
        if same {
            out.push(to_chars(replacement.as_str()));
        } else {
            out.push(to_chars(word.as_str()));
        }
        i += 1;
    }
    assert(views(out@) =~= Seq::new(
        views(words@).len(),
        |i: int| replaced_word(options.deep_view(), replacement@, views(words@)[i]),
    ));
    join_chars(&out, " ")
}

/// The value that a cell gets by a replacement.
pub fn replacement_for(
    options: &FindOptions,
    pattern: &Option<Pattern>,
    replacement: &String,
    value: &str,
) -> (r: Option<String>)
    requires
        match *pattern {
            Some(re) => options.regex && regex_source(re) == options.search_text@,
            None => !options.regex,
        },
    ensures
        r.deep_view() == replacement_of(options.deep_view(), replacement@, value@),
{
    match pattern {
        Some(re) => {
            if is_match(re, value) {
                Some(replace_all(re, value, replacement.as_str()))
            } else {
                None
            }
        },
        None => {
            if options.whole_word {
                let new = replace_words(options, replacement, value);
                if str_eq(new.as_str(), value) {
                    None
                } else {
                    Some(new)
                }
            } else if options.case_sensitive {
                let new = replace_text(value, options.search_text.as_str(), replacement.as_str());
                if str_eq(new.as_str(), value) {
                    None
                } else {
                    Some(new)
                }
            } else {
                let folded = lower(value);
                let wanted = lower(options.search_text.as_str());
                if str_contains(folded.as_str(), wanted.as_str()) {
                    Some(replace_text(value, options.search_text.as_str(), replacement.as_str()))
                } else {
                    None
                }
            }
        },
    }
}

/// Replaces what a search finds, or shows what would be replaced.
pub fn replace_in_csv(data: CsvTable, options: &ReplaceOptions) -> (r: Result<
    ReplaceResult,
    SearchError,
>)
    ensures
        if options.find_options.regex && !pattern_compiles(options.find_options.search_text@) {
            r == Err::<ReplaceResult, SearchError>(SearchError::InvalidRegex)
        } else {
            &&& r is Ok
            &&& r->Ok_0.preview.deep_view() == table_changes(
                options.find_options.deep_view(),
                options.replace_text@,
                data.rows.deep_view(),
                data.rows.len() as int,
            )
            &&& r->Ok_0.replaced_count == r->Ok_0.preview.len()
            &&& options.preview_only ==> r->Ok_0.data is None
            &&& !options.preview_only ==> r->Ok_0.data is Some
                && r->Ok_0.data->Some_0.headers.deep_view() == data.headers.deep_view()
                && r->Ok_0.data->Some_0.rows.deep_view() == rows_after(
                options.find_options.deep_view(),
                options.replace_text@,
                data.rows.deep_view(),
            )
        },
{
    let pattern = match search_pattern(&options.find_options) {
        Ok(p) => p,
        Err(e) => {
            return Err(e);
        },
    };
    let ghost model = options.find_options.deep_view();
    let ghost with = options.replace_text@;
    let ghost table = data.rows.deep_view();
    let mut preview: Vec<ReplacePreview> = Vec::new();
    let mut rows: Vec<Vec<String>> = Vec::new();
    let mut row: usize = 0;
    assert(preview.deep_view() =~= table_changes(model, with, table, 0));
    while row < data.rows.len()
        invariant
            row <= data.rows.len(),
            !(options.find_options.regex && !pattern_compiles(options.find_options.search_text@)),
            model == options.find_options.deep_view(),
            with == options.replace_text@,
            table == data.rows.deep_view(),
            match pattern {
                Some(re) => options.find_options.regex && regex_source(re)
                    == options.find_options.search_text@,
                None => !options.find_options.regex,
            },
            preview.deep_view() == table_changes(model, with, table, row as int),
            rows.len() == row,
            forall|r: int| 0 <= r < row ==> (#[trigger] rows[r]).len() == table[r].len(),
            forall|r: int, c: int|
                0 <= r < row && 0 <= c < table[r].len() ==> (#[trigger] rows[r][c])@ == value_after(
                    model,
                    with,
                    table,
                    r,
                    c,
                ),
        decreases data.rows.len() - row,
    {
        let ghost done = preview.deep_view();
        let width: usize = data.rows[row].len();
        let mut cells: Vec<String> = Vec::new();
        let mut col: usize = 0;
        assert(preview.deep_view() =~= done + row_changes(model, with, table, row as int, 0));
        while col < width
            invariant
                row < data.rows.len(),
                col <= width == data.rows[row as int].len(),
                width == table[row as int].len(),
                model == options.find_options.deep_view(),
                with == options.replace_text@,
                table == data.rows.deep_view(),
                match pattern {
                    Some(re) => options.find_options.regex && regex_source(re)
                        == options.find_options.search_text@,
                    None => !options.find_options.regex,
                },
                preview.deep_view() == done + row_changes(
                    model,
                    with,
                    table,
                    row as int,
                    col as int,
                ),
                cells.len() == col,
                forall|c: int|
                    0 <= c < col ==> (#[trigger] cells[c])@ == value_after(
                        model,
                        with,
                        table,
                        row as int,
                        c,
                    ),
            decreases width - col,
        {
            let ghost so_far = preview.deep_view();
            let value = &data.rows[row][col];
            assert(table[row as int][col as int] == value@);
            let looked_at = match options.find_options.column_index {
                Some(c) => c == col,
                None => true,
            };
            let new_value = if looked_at {
                replacement_for(
                    &options.find_options,
                    &pattern,
                    &options.replace_text,
                    value.as_str(),
                )
            } else {
                None
            };
            match new_value {
                Some(new) => {
                    let change = ReplacePreview {
                        row_index: row,
                        column_index: col,
                        original_value: value.clone(),
                        new_value: new.clone(),
                    };
                    preview.push(change);
                    assert(preview.deep_view() =~= so_far.push(change.deep_view()));
                    cells.push(new);
                },
                None => {
                    cells.push(value.clone());
                },
            }
            col += 1;
            assert(preview.deep_view() =~= done + row_changes(
                model,
                with,
                table,
                row as int,
                col as int,
            ));
        }
        rows.push(cells);
        row += 1;
    }
    assert(rows.deep_view() =~~= rows_after(model, with, table));
    let replaced_count = preview.len();
    let after = if options.preview_only {
        None
    } else {
        Some(CsvTable { headers: data.headers, rows })
    };
    Ok(ReplaceResult { replaced_count, data: after, preview })
}

impl SearchError {
    /// The error as the application reports it.
    pub fn to_app_error(&self) -> (e: crate::utils::error::AppError)
        ensures
            e.message@ == "Invalid regex pattern"@,
            e.code@ == "INVALID_REGEX"@,
    {
        crate::utils::error::AppError::new(
            String::from_str("Invalid regex pattern"),
            String::from_str("INVALID_REGEX"),
        )
    }
}

} // verus!
