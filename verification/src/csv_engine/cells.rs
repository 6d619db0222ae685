//! Rules that give a cell a new value.
//!
//! A rule looks at one cell, and for some rules at the cells above it, and
//! says what the cell should hold; it says nothing where the cell is to be
//! left alone.

use vstd::prelude::*;
use vstd::string::*;
use crate::csv_engine::table::{cell, get_cell, opt_string_view};
use crate::dates::{format_date, formatted_date, parse_date, parsed_date, CalendarDate};
use crate::pattern::{regex_source, replace_all, replaced_all, Pattern};
use crate::text::{
    char_is_numeric, char_is_whitespace, char_to_digit, chars_match_at, chars_of_range,
    digit_value, is_blank, is_numeric, is_whitespace, join_chars, joined, lower, lowercase,
    str_is_blank, string_of, string_of_range, to_chars, trim, trimmed, upper, uppercase, views,
};

verus! {

/// `text` with every occurrence of `from`, from left to right and without
/// overlap, replaced by `to`. An empty `from` occurs before every character
/// and at the end.
pub open spec fn replaced(text: Seq<char>, from: Seq<char>, to: Seq<char>) -> Seq<char>
    decreases text.len(),
{
    if text.len() == 0 {
        if from.len() == 0 {
            to
        } else {
            text
        }
    } else if from.len() == 0 {
        to + seq![text[0]] + replaced(text.skip(1), from, to)
    } else if from.len() <= text.len() && text.subrange(0, from.len() as int) == from {
        to + replaced(text.skip(from.len() as int), from, to)
    } else {
        seq![text[0]] + replaced(text.skip(1), from, to)
    }
}

/// Appends the characters of `more` to `out`.
fn push_chars(out: &mut Vec<char>, more: &Vec<char>)
    ensures
        final(out)@ == old(out)@ + more@,
{
    let ghost before = out@;
    let mut k: usize = 0;
    assert(out@ =~= before + more@.subrange(0, 0));
    while k < more.len()
        invariant
            k <= more.len(),
            out@ == before + more@.subrange(0, k as int),
        decreases more.len() - k,
    {
        out.push(more[k]);
        k += 1;
        assert(out@ =~= before + more@.subrange(0, k as int));
    }
    assert(more@.subrange(0, more.len() as int) =~= more@);
}

/// `text` with every occurrence of `from` replaced by `to`, as
/// `str::replace` gives it for a text as the pattern.
pub(crate) fn replace_text(text: &str, from: &str, to: &str) -> (r: String)
    ensures
        r@ == replaced(text@, from@, to@),
{
    let t = to_chars(text);
    let f = to_chars(from);
    let w = to_chars(to);
    let mut out: Vec<char> = Vec::new();
    let mut i: usize = 0;
    assert(t@.skip(0) =~= t@);
    assert(out@ + replaced(t@.skip(0), f@, w@) =~= replaced(t@, f@, w@));
    while i < t.len()
        invariant
            i <= t.len(),
            replaced(t@, f@, w@) == out@ + replaced(t@.skip(i as int), f@, w@),
        decreases t.len() - i,
    {
        let ghost rest = t@.skip(i as int);
        let ghost done = out@;
        assert(rest.len() > 0 && rest[0] == t@[i as int]);
        if f.len() == 0 {
            push_chars(&mut out, &w);
            out.push(t[i]);
            i += 1;
            assert(rest.skip(1) =~= t@.skip(i as int));
            assert(out@ + replaced(t@.skip(i as int), f@, w@) =~= done + (w@ + seq![rest[0]]
                + replaced(rest.skip(1), f@, w@)));
        } else if chars_match_at(&t, &f, i) {
            assert(rest.subrange(0, f@.len() as int) =~= t@.subrange(
                i as int,
                i as int + f@.len(),
            ));
            push_chars(&mut out, &w);
            i += f.len();
            assert(rest.skip(f@.len() as int) =~= t@.skip(i as int));
            assert(out@ + replaced(t@.skip(i as int), f@, w@) =~= done + (w@ + replaced(
                rest.skip(f@.len() as int),
                f@,
                w@,
            )));
        } else {
            assert(!(f@.len() <= rest.len() && rest.subrange(0, f@.len() as int) == f@)) by {
                if f@.len() <= rest.len() {
                    assert(rest.subrange(0, f@.len() as int) =~= t@.subrange(
                        i as int,
                        i as int + f@.len(),
                    ));
                }
            }
            out.push(t[i]);
            i += 1;
            assert(rest.skip(1) =~= t@.skip(i as int));
            assert(out@ + replaced(t@.skip(i as int), f@, w@) =~= done + (seq![rest[0]]
                + replaced(rest.skip(1), f@, w@)));
        }
    }
    let ghost done = out@;
    assert(t@.skip(i as int).len() == 0);
    if f.len() == 0 {
        push_chars(&mut out, &w);
    } else {
        assert(done + t@.skip(i as int) =~= done);
    }
    string_of(&out)
}

/// The value that an action gives a cell.
pub enum CellRule {
    /// The cell without leading and trailing whitespace.
    Trim,
    /// A fixed value for a blank cell.
    FillCustom(String),
    /// For a blank cell, the value of the nearest cell above that is not
    /// blank.
    FillForward,
    /// The cell with every match of the pattern replaced by one space, and
    /// then without leading and trailing whitespace.
    Normalize(Pattern),
    /// The cell in lower case.
    Lowercase,
    /// The cell in upper case.
    Uppercase,
    /// The cell with every occurrence of the first text replaced by the
    /// second.
    Replace(String, String),
    /// The words of the cell with one space between them, each with its
    /// first character in upper case and the rest in lower case.
    Capitalize,
    /// The date of the cell, read under the first of the formats `inputs`
    /// that fits and written under the format `output`. With `trimmed` the
    /// cell is read without its surrounding whitespace and a blank cell is
    /// left alone; without, the cell is read as it is and an empty cell is
    /// left alone.
    Reformat { inputs: Vec<&'static str>, output: &'static str, trimmed: bool },
    /// A cell that is not empty, trimmed and in lower case.
    Email,
    /// A cell with exactly ten digits as `(XXX) XXX-XXXX`.
    Phone,
}

/// The mathematical value of a [`CellRule`].
pub enum CellRuleView {
    Trim,
    FillCustom(Seq<char>),
    FillForward,
    Normalize(Seq<char>),
    Lowercase,
    Uppercase,
    Replace(Seq<char>, Seq<char>),
    Capitalize,
    Reformat { inputs: Seq<Seq<char>>, output: Seq<char>, trimmed: bool },
    Email,
    Phone,
}

impl CellRule {
    /// The mathematical value of the rule.
    pub open spec fn model(&self) -> CellRuleView {
        match self {
            CellRule::Trim => CellRuleView::Trim,
            CellRule::FillCustom(v) => CellRuleView::FillCustom(v@),
            CellRule::FillForward => CellRuleView::FillForward,
            CellRule::Normalize(re) => CellRuleView::Normalize(regex_source(*re)),
            CellRule::Lowercase => CellRuleView::Lowercase,
            CellRule::Uppercase => CellRuleView::Uppercase,
            CellRule::Replace(from, to) => CellRuleView::Replace(from@, to@),
            CellRule::Capitalize => CellRuleView::Capitalize,
            CellRule::Reformat { inputs, output, trimmed } => CellRuleView::Reformat {
                inputs: inputs.deep_view(),
                output: output@,
                trimmed: *trimmed,
            },
            CellRule::Email => CellRuleView::Email,
            CellRule::Phone => CellRuleView::Phone,
        }
    }
}

/// The value of the nearest cell of column `col` above row `upto` that is
/// not blank.
pub open spec fn previous(data: Seq<Seq<Seq<char>>>, upto: int, col: int) -> Option<Seq<char>>
    decreases upto,
{
    if upto <= 0 {
        None
    } else if cell(data, upto - 1, col) is Some && !is_blank(cell(data, upto - 1, col)->Some_0) {
        cell(data, upto - 1, col)
    } else {
        previous(data, upto - 1, col)
    }
}

/// The words of `s` from index `at` on, where the word being read began at
/// `start`: the runs of characters that are no whitespace.
pub open spec fn words_scan(s: Seq<char>, at: int, start: int) -> Seq<Seq<char>>
    decreases s.len() - at,
{
    if at >= s.len() {
        if start < s.len() {
            seq![s.subrange(start, s.len() as int)]
        } else {
            Seq::empty()
        }
    } else if char_is_whitespace(s[at]) {
        if start < at {
            seq![s.subrange(start, at)] + words_scan(s, at + 1, at + 1)
        } else {
            words_scan(s, at + 1, at + 1)
        }
    } else {
        words_scan(s, at + 1, start)
    }
}

/// A word with its first character in upper case and the rest in lower
/// case.
pub open spec fn capital_word(word: Seq<char>) -> Seq<char> {
    if word.len() == 0 {
        Seq::empty()
    } else {
        uppercase(word.subrange(0, 1)) + lowercase(word.subrange(1, word.len() as int))
    }
}

/// The words of `s`, each capitalized, with one space between them.
pub open spec fn capitalized(s: Seq<char>) -> Seq<char> {
    let words = words_scan(s, 0, 0);
    joined(Seq::new(words.len(), |i: int| capital_word(words[i])), " "@)
}

/// The date that `text` stands for under the first of the formats from
/// `from` on that fits.
pub open spec fn first_date(text: Seq<char>, inputs: Seq<Seq<char>>, from: int) -> Option<
    CalendarDate,
>
    decreases inputs.len() - from,
{
    if from < 0 || from >= inputs.len() {
        None
    } else if parsed_date(text, inputs[from]) is Some {
        parsed_date(text, inputs[from])
    } else {
        first_date(text, inputs, from + 1)
    }
}

/// The date of `text`, read under the first format that fits and written
/// under `output`.
pub open spec fn date_form(text: Seq<char>, inputs: Seq<Seq<char>>, output: Seq<char>) -> Option<
    Seq<char>,
> {
    match first_date(text, inputs, 0) {
        Some(date) => formatted_date(date, output),
        None => None,
    }
}

/// The numeric characters among the first `upto` of `s`, in their order.
pub open spec fn numerics(s: Seq<char>, upto: int) -> Seq<char>
    decreases upto,
{
    if upto <= 0 {
        Seq::empty()
    } else if upto <= s.len() && char_is_numeric(s[upto - 1]) {
        numerics(s, upto - 1).push(s[upto - 1])
    } else {
        numerics(s, upto - 1)
    }
}

/// Whether `s` is made of the digits `0` to `9` only.
pub open spec fn plain_digits(s: Seq<char>) -> bool {
    forall|i: int| 0 <= i < s.len() ==> digit_value(#[trigger] s[i]) is Some
}

/// A phone number in its standard form: for a text whose numeric characters
/// are exactly ten digits `0` to `9`.
pub open spec fn phone_form(s: Seq<char>) -> Option<Seq<char>> {
    let digits = numerics(s, s.len() as int);
    if digits.len() == 10 && plain_digits(digits) {
        Some(
            "("@ + digits.subrange(0, 3) + ") "@ + digits.subrange(3, 6) + "-"@ + digits.subrange(
                6,
                10,
            ),
        )
    } else {
        None
    }
}

/// The value that `rule` gives the cell in row `row` and column `col`, where
/// it gives one.
pub open spec fn new_value(rule: CellRuleView, data: Seq<Seq<Seq<char>>>, row: int, col: int) -> Option<
    Seq<char>,
> {
    let old = data[row][col];
    match rule {
        CellRuleView::Trim => Some(trimmed(old)),
        CellRuleView::FillCustom(v) => if is_blank(old) && v.len() > 0 {
            Some(v)
        } else {
            None
        },
        CellRuleView::FillForward => if is_blank(old) {
            previous(data, row, col)
        } else {
            None
        },
        CellRuleView::Normalize(p) => Some(trimmed(replaced_all(p, old, " "@))),
        CellRuleView::Lowercase => Some(lowercase(old)),
        CellRuleView::Uppercase => Some(uppercase(old)),
        CellRuleView::Replace(from, to) => Some(replaced(old, from, to)),
        CellRuleView::Capitalize => Some(capitalized(old)),
        CellRuleView::Reformat { inputs, output, trimmed: trim_first } => if trim_first {
            if is_blank(old) {
                None
            } else {
                date_form(trimmed(old), inputs, output)
            }
        } else {
            if old.len() == 0 {
                None
            } else {
                date_form(old, inputs, output)
            }
        },
        CellRuleView::Email => if old.len() == 0 {
            None
        } else {
            Some(lowercase(trimmed(old)))
        },
        CellRuleView::Phone => if old.len() == 0 {
            None
        } else {
            phone_form(old)
        },
    }
}

/// The value of the nearest cell of column `col` above row `upto` that is
/// not blank.
pub fn find_previous<'a>(data: &'a [Vec<String>], upto: usize, col: usize) -> (r: Option<
    &'a String,
>)
    requires
        upto <= data.len(),
    ensures
        opt_string_view(r) == previous(data.deep_view(), upto as int, col as int),
{
    let mut row: usize = upto;
    while row > 0
        invariant
            row <= upto <= data.len(),
            previous(data.deep_view(), upto as int, col as int) == previous(
                data.deep_view(),
                row as int,
                col as int,
            ),
        decreases row,
    {
        if let Some(value) = get_cell(data, row - 1, col) {
            if !str_is_blank(value.as_str()) {
                return Some(value);
            }
        }
        row -= 1;
    }
    None
}

/// The words of `s`.
pub fn split_words(s: &Vec<char>) -> (words: Vec<Vec<char>>)
    ensures
        views(words@) == words_scan(s@, 0, 0),
{
    let n: usize = s.len();
    let mut words: Vec<Vec<char>> = Vec::new();
    let mut start: usize = 0;
    let mut i: usize = 0;
    while i < n
        invariant
            start <= i <= n == s.len(),
            words_scan(s@, 0, 0) == views(words@) + words_scan(s@, i as int, start as int),
        decreases n - i,
    {
        if is_whitespace(s[i]) {
            if start < i {
                let word = chars_of_range(s, start, i);
                let ghost before = views(words@);
                words.push(word);
                assert(views(words@) =~= before + seq![word@]);
            }
            start = i + 1;
        }
        i += 1;
    }
    if start < n {
        let word = chars_of_range(s, start, n);
        let ghost before = views(words@);
        words.push(word);
        assert(views(words@) =~= before + seq![word@]);
    }
    words
}

/// A word with its first character in upper case and the rest in lower
/// case.
pub fn capitalize_word(word: &Vec<char>) -> (r: Vec<char>)
    ensures
        r@ == capital_word(word@),
{
    if word.len() == 0 {
        return Vec::new();
    }
    let first = string_of_range(word, 0, 1);
    let rest = string_of_range(word, 1, word.len());
    let mut out = upper(first.as_str());
    out.append(lower(rest.as_str()).as_str());
    to_chars(out.as_str())
}

/// The words of `s`, each capitalized, with one space between them.
pub fn capitalize(s: &str) -> (r: String)
    ensures
        r@ == capitalized(s@),
{
    let words = split_words(&to_chars(s));
    let mut out: Vec<Vec<char>> = Vec::new();
    let mut i: usize = 0;
    while i < words.len()
        invariant
            i <= words.len(),
            out.len() == i,
            forall|k: int| 0 <= k < i ==> (#[trigger] out[k])@ == capital_word(words[k]@),
        decreases words.len() - i,
    {
        out.push(capitalize_word(&words[i]));
        i += 1;
    }
    assert(views(out@) =~= Seq::new(
        views(words@).len(),
        |i: int| capital_word(views(words@)[i]),
    ));
    join_chars(&out, " ")
}

/// The date of `text`, read under the first format that fits and written
/// under `output`.
pub fn date_in_form(text: &str, inputs: &Vec<&'static str>, output: &str) -> (r: Option<String>)
    ensures
        r.deep_view() == date_form(text@, inputs.deep_view(), output@),
{
    let mut i: usize = 0;
    while i < inputs.len()
        invariant
            i <= inputs.len(),
            first_date(text@, inputs.deep_view(), 0) == first_date(
                text@,
                inputs.deep_view(),
                i as int,
            ),
        decreases inputs.len() - i,
    {
        assert(inputs.deep_view()[i as int] == inputs[i as int]@);
        if let Some(date) = parse_date(text, inputs[i]) {
            return format_date(date, output);
        }
        i += 1;
    }
    None
}

/// A phone number in its standard form.
pub fn phone_in_form(s: &str) -> (r: Option<String>)
    ensures
        r.deep_view() == phone_form(s@),
{
    let v = to_chars(s);
    let mut digits: Vec<char> = Vec::new();
    let mut plain = true;
    let mut i: usize = 0;
    while i < v.len()
        invariant
            i <= v.len(),
            digits@ == numerics(v@, i as int),
            plain == plain_digits(digits@),
        decreases v.len() - i,
    {
        if is_numeric(v[i]) {
            let ghost before = digits@;
            if char_to_digit(v[i]).is_none() {
                plain = false;
            }
            digits.push(v[i]);
            proof {
                if plain {
                    assert forall|k: int| 0 <= k < digits@.len() implies digit_value(
                        #[trigger] digits@[k],
                    ) is Some by {
                        if k < before.len() {
                            assert(digits@[k] == before[k]);
                        }
                    }
                } else {
                    if plain_digits(before) {
                        assert(digit_value(digits@[before.len() as int]) is None);
                    } else {
                        let k = choose|k: int|
                            0 <= k < before.len() && !(digit_value(#[trigger] before[k]) is Some);
                        assert(digits@[k] == before[k]);
                    }
                }
            }
        }
        i += 1;
    }
    assert(v@ == s@);
    if digits.len() == 10 && plain {
        let mut out = String::from_str("(");
        out.append(string_of_range(&digits, 0, 3).as_str());
        out.append(") ");
        out.append(string_of_range(&digits, 3, 6).as_str());
        out.append("-");
        out.append(string_of_range(&digits, 6, 10).as_str());
        Some(out)
    } else {
        None
    }
}

/// The value that `rule` gives a cell, where it gives one.
pub fn value_for(rule: &CellRule, data: &[Vec<String>], row: usize, col: usize) -> (r: Option<
    String,
>)
    requires
        row < data.len(),
        col < data[row as int].len(),
    ensures
        r.deep_view() == new_value(rule.model(), data.deep_view(), row as int, col as int),
{
    let old = &data[row][col];
    match rule {
        CellRule::Trim => Some(trim(old.as_str())),
        CellRule::FillCustom(v) => {
            if str_is_blank(old.as_str()) && !v.as_str().is_empty() {
                Some(v.clone())
            } else {
                None
            }
        },
        CellRule::FillForward => {
            if str_is_blank(old.as_str()) {
                match find_previous(data, row, col) {
                    Some(v) => Some(v.clone()),
                    None => None,
                }
            } else {
                None
            }
        },
        CellRule::Normalize(re) => {
            let spaced = replace_all(re, old.as_str(), " ");
            Some(trim(spaced.as_str()))
        },
        CellRule::Lowercase => Some(lower(old.as_str())),
        CellRule::Uppercase => Some(upper(old.as_str())),
        CellRule::Replace(from, to) => Some(
            replace_text(old.as_str(), from.as_str(), to.as_str()),
        ),
        CellRule::Capitalize => Some(capitalize(old.as_str())),
        CellRule::Reformat { inputs, output, trimmed } => {
            if *trimmed {
                if str_is_blank(old.as_str()) {
                    None
                } else {
                    let text = trim(old.as_str());
                    date_in_form(text.as_str(), inputs, output)
                }
            } else {
                if old.as_str().is_empty() {
                    None
                } else {
                    date_in_form(old.as_str(), inputs, output)
                }
            }
        },
        CellRule::Email => {
            if old.as_str().is_empty() {
                None
            } else {
                let text = trim(old.as_str());
                Some(lower(text.as_str()))
            }
        },
        CellRule::Phone => {
            if old.as_str().is_empty() {
                None
            } else {
                phone_in_form(old.as_str())
            }
        },
    }
}

} // verus!
