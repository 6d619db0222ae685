//! Classification of interpreter error output.
//!
//! A failed run leaves a traceback on standard error. The generated script is
//! machine-written, so a handful of failure modes dominate; this module turns
//! the traceback into one of them, with a message a user can act on.
//!
//! The classification is an ordered table of [`ErrorRule`]s, the most
//! telling failure first. The first rule of the table whose marker occurs in
//! any line of the traceback classifies it, wherever in the traceback the
//! markers of later rules stand. A traceback without any marker is summed up
//! by its first lines that are not blank.

use vstd::prelude::*;
use vstd::string::*;
use crate::text::{
    chars_contain, chars_of_range, chars_start_with, contains, join_chars, joined, lines_of,
    matches_at, opt_view, split_lines, starts_with, to_chars, trim_bounds, trimmed, views,
};

verus! {

/// The failure modes of a generated script.
#[derive(Clone, Copy, Debug, PartialEq, Eq, Structural)]
pub enum ErrorKind {
    Indentation,
    Syntax,
    Name,
    Type,
    Attribute,
    Value,
    Key,
    Index,
    Unclassified,
}

/// A test on one line of a traceback.
#[derive(Clone, Copy, Debug)]
pub enum LineTest {
    Contains(&'static str),
    ContainsEither(&'static str, &'static str),
    ContainsBoth(&'static str, &'static str),
    StartsWith(&'static str),
}

impl LineTest {
    /// Whether `line` passes the test.
    pub open spec fn holds(self, line: Seq<char>) -> bool {
        match self {
            LineTest::Contains(a) => contains(line, a@),
            LineTest::ContainsEither(a, b) => contains(line, a@) || contains(line, b@),
            LineTest::ContainsBoth(a, b) => contains(line, a@) && contains(line, b@),
            LineTest::StartsWith(a) => starts_with(line, a@),
        }
    }

    /// Whether `line` passes the test.
    pub fn check(&self, line: &Vec<char>) -> (b: bool)
        ensures
            b == self.holds(line@),
    {
        match self {
            LineTest::Contains(a) => chars_contain(line, &to_chars(a)),
            LineTest::ContainsEither(a, b) => {
                chars_contain(line, &to_chars(a)) || chars_contain(line, &to_chars(b))
            },
            LineTest::ContainsBoth(a, b) => {
                chars_contain(line, &to_chars(a)) && chars_contain(line, &to_chars(b))
            },
            LineTest::StartsWith(a) => chars_start_with(line, &to_chars(a)),
        }
    }
}

/// The index of the first line at or after `from` that passes `test`.
pub open spec fn first_line_from(lines: Seq<Seq<char>>, test: LineTest, from: int) -> Option<int>
    decreases lines.len() - from,
{
    if from < 0 || from >= lines.len() {
        None
    } else if test.holds(lines[from]) {
        Some(from)
    } else {
        first_line_from(lines, test, from + 1)
    }
}

/// The index of the first line that passes `test`.
pub open spec fn first_line(lines: Seq<Seq<char>>, test: LineTest) -> Option<int> {
    first_line_from(lines, test, 0)
}

/// The index of the first line that passes `test`.
pub fn find_line(lines: &Vec<Vec<char>>, test: &LineTest) -> (found: Option<usize>)
    ensures
        match found {
            Some(i) => first_line(views(lines@), *test) == Some(i as int),
            None => first_line(views(lines@), *test) is None,
        },
{
    let mut i: usize = 0;
    while i < lines.len()
        invariant
            i <= lines.len(),
            first_line(views(lines@), *test) == first_line_from(views(lines@), *test, i as int),
        decreases lines.len() - i,
    {
        if test.check(&lines[i]) {
            return Some(i);
        }
        i += 1;
    }
    None
}

/// One row of the classification table.
#[derive(Clone, Copy, Debug)]
pub struct ErrorRule {
    /// The text that selects this rule.
    pub marker: &'static str,
    /// The failure mode that the rule stands for.
    pub kind: ErrorKind,
    /// A narrower case that is looked for first, with its own message.
    pub special: Option<LineTest>,
    /// What the message of the narrower case begins with.
    pub special_prefix: &'static str,
    /// The line that explains the failure.
    pub detail: LineTest,
    /// A line that is shown instead of the detail line where there is one.
    pub preferred: Option<LineTest>,
    /// What the message begins with where a detail line was found.
    pub detail_prefix: &'static str,
    /// The message where no detail line was found.
    pub plain_message: &'static str,
}

impl ErrorRule {
    /// The index of the line shown for the narrower case, if that case holds.
    pub open spec fn special_line(self, lines: Seq<Seq<char>>) -> Option<int> {
        match self.special {
            Some(test) => first_line(lines, test),
            None => None,
        }
    }

    /// The index of the line shown with the message, if there is one.
    pub open spec fn shown_line(self, lines: Seq<Seq<char>>) -> Option<int> {
        if self.special_line(lines) is Some {
            self.special_line(lines)
        } else if first_line(lines, self.detail) is Some {
            match self.preferred {
                Some(test) => if first_line(lines, test) is Some {
                    first_line(lines, test)
                } else {
                    first_line(lines, self.detail)
                },
                None => first_line(lines, self.detail),
            }
        } else {
            None
        }
    }

    /// The diagnostic line that the rule extracts, trimmed.
    pub open spec fn extract(self, lines: Seq<Seq<char>>) -> Option<Seq<char>> {
        match self.shown_line(lines) {
            Some(i) => Some(trimmed(lines[i])),
            None => None,
        }
    }

    /// The message that the rule gives for a traceback.
    pub open spec fn message(self, lines: Seq<Seq<char>>) -> Seq<char> {
        match self.extract(lines) {
            Some(detail) => if self.special_line(lines) is Some {
                self.special_prefix@ + detail
            } else {
                self.detail_prefix@ + detail
            },
            None => self.plain_message@,
        }
    }

    /// The index of the line to show with the message, if there is one.
    pub fn find_shown(&self, lines: &Vec<Vec<char>>) -> (r: (Option<usize>, bool))
        ensures
            match r.0 {
                Some(i) => self.shown_line(views(lines@)) == Some(i as int) && i < lines.len(),
                None => self.shown_line(views(lines@)) is None,
            },
            r.1 == (self.special_line(views(lines@)) is Some),
    {
        proof {
            lemma_first_line_in_range(views(lines@), self.detail, 0);
        }
        if let Some(test) = self.special {
            proof {
                lemma_first_line_in_range(views(lines@), test, 0);
            }
            let special = find_line(lines, &test);
            if special.is_some() {
                return (special, true);
            }
        }
        let detail = find_line(lines, &self.detail);
        if detail.is_none() {
            return (None, false);
        }
        if let Some(test) = self.preferred {
            proof {
                lemma_first_line_in_range(views(lines@), test, 0);
            }
            let preferred = find_line(lines, &test);
            if preferred.is_some() {
                return (preferred, false);
            }
        }
        (detail, false)
    }
}

/// A line found by [`first_line_from`] lies in the traceback, at or after the
/// index where the search began.
pub proof fn lemma_first_line_in_range(lines: Seq<Seq<char>>, test: LineTest, from: int)
    ensures
        match first_line_from(lines, test, from) {
            Some(i) => from <= i < lines.len() && test.holds(lines[i]),
            None => true,
        },
    decreases lines.len() - from,
{
    if from < 0 || from >= lines.len() {
    } else if test.holds(lines[from]) {
    } else {
        lemma_first_line_in_range(lines, test, from + 1);
    }
}

/// The rule for wrong indentation.
pub open spec fn indentation_rule() -> ErrorRule {
    ErrorRule {
        marker: "IndentationError",
        kind: ErrorKind::Indentation,
        special: None,
        special_prefix: "",
        detail: LineTest::ContainsEither("unexpected indent", "expected an indented block"),
        preferred: None,
        detail_prefix: "Python indentation error: The generated script has incorrect indentation. This is usually caused by the AI model generating code with inconsistent spacing. Please try regenerating the script.\n\nDetails: ",
        plain_message: "Python indentation error: The generated script has incorrect indentation. Please try regenerating the script.",
    }
}

/// The rule for invalid syntax.
pub open spec fn syntax_rule() -> ErrorRule {
    ErrorRule {
        marker: "SyntaxError",
        kind: ErrorKind::Syntax,
        special: None,
        special_prefix: "",
        detail: LineTest::Contains("invalid syntax"),
        preferred: None,
        detail_prefix: "Python syntax error: The generated script contains invalid syntax.\n\nDetails: ",
        plain_message: "Python syntax error: The generated script contains invalid syntax. Please try regenerating the script.",
    }
}

/// The rule for the use of an undefined name.
pub open spec fn name_rule() -> ErrorRule {
    ErrorRule {
        marker: "NameError",
        kind: ErrorKind::Name,
        special: None,
        special_prefix: "",
        detail: LineTest::Contains("is not defined"),
        preferred: Some(LineTest::Contains("NameError:")),
        detail_prefix: "Python name error: A variable or function is used but not defined. This usually means the generated script is missing variable definitions or has incorrect variable names.\n\nDetails: ",
        plain_message: "Python name error: A variable or function is used but not defined. Please try regenerating the script.",
    }
}

/// The rule for an operation on incompatible types.
pub open spec fn type_rule() -> ErrorRule {
    ErrorRule {
        marker: "TypeError",
        kind: ErrorKind::Type,
        special: None,
        special_prefix: "",
        detail: LineTest::ContainsEither("unsupported operand", "not supported"),
        preferred: None,
        detail_prefix: "Python type error: An operation is performed on incompatible types.\n\nDetails: ",
        plain_message: "Python type error: An operation is performed on incompatible types. Please try regenerating the script.",
    }
}

/// The rule for a missing attribute.
pub open spec fn attribute_rule() -> ErrorRule {
    ErrorRule {
        marker: "AttributeError",
        kind: ErrorKind::Attribute,
        special: None,
        special_prefix: "",
        detail: LineTest::Contains("has no attribute"),
        preferred: None,
        detail_prefix: "Python attribute error: An object doesn't have the expected attribute.\n\nDetails: ",
        plain_message: "Python attribute error: An object doesn't have the expected attribute. Please try regenerating the script.",
    }
}

/// The rule for an invalid value, with unparsable dates and times as its narrower case.
pub open spec fn value_rule() -> ErrorRule {
    ErrorRule {
        marker: "ValueError",
        kind: ErrorKind::Value,
        special: Some(LineTest::ContainsBoth("time data", "does not match format")),
        special_prefix: "Data format error: The script expected a different date/time format than what's in your CSV data. The generated script may need to be adjusted to match your actual data format.\n\nDetails: ",
        detail: LineTest::Contains("ValueError"),
        preferred: Some(LineTest::StartsWith("ValueError:")),
        detail_prefix: "Data value error: The script encountered invalid data values.\n\nDetails: ",
        plain_message: "Python value error: The script encountered invalid data values. Please check your CSV data or try regenerating the script.",
    }
}

/// The rule for a missing key or column.
pub open spec fn key_rule() -> ErrorRule {
    ErrorRule {
        marker: "KeyError",
        kind: ErrorKind::Key,
        special: None,
        special_prefix: "",
        detail: LineTest::Contains("KeyError"),
        preferred: Some(LineTest::StartsWith("KeyError:")),
        detail_prefix: "Data key error: The script tried to access a column or key that doesn't exist in your data.\n\nDetails: ",
        plain_message: "Python key error: The script tried to access a column or key that doesn't exist. Please check your CSV data or try regenerating the script.",
    }
}

/// The rule for an index out of range.
pub open spec fn index_rule() -> ErrorRule {
    ErrorRule {
        marker: "IndexError",
        kind: ErrorKind::Index,
        special: None,
        special_prefix: "",
        detail: LineTest::Contains("IndexError"),
        preferred: Some(LineTest::StartsWith("IndexError:")),
        detail_prefix: "Data index error: The script tried to access a row or column index that doesn't exist.\n\nDetails: ",
        plain_message: "Python index error: The script tried to access a row or column index that doesn't exist. Please check your CSV data or try regenerating the script.",
    }
}

/// The classification table, in the order in which its rules are tried.
pub open spec fn rule_table() -> Seq<ErrorRule> {
    seq![
        indentation_rule(),
        syntax_rule(),
        name_rule(),
        type_rule(),
        attribute_rule(),
        value_rule(),
        key_rule(),
        index_rule(),
    ]
}

/// The classification table, in the order in which its rules are tried.
pub fn error_rules() -> (rules: Vec<ErrorRule>)
    ensures
        rules@ == rule_table(),
{
    let rules = vec![
        ErrorRule {
            marker: "IndentationError",
            kind: ErrorKind::Indentation,
            special: None,
            special_prefix: "",
            detail: LineTest::ContainsEither("unexpected indent", "expected an indented block"),
            preferred: None,
            detail_prefix: "Python indentation error: The generated script has incorrect indentation. This is usually caused by the AI model generating code with inconsistent spacing. Please try regenerating the script.\n\nDetails: ",
            plain_message: "Python indentation error: The generated script has incorrect indentation. Please try regenerating the script.",
        },
        ErrorRule {
            marker: "SyntaxError",
            kind: ErrorKind::Syntax,
            special: None,
            special_prefix: "",
            detail: LineTest::Contains("invalid syntax"),
            preferred: None,
            detail_prefix: "Python syntax error: The generated script contains invalid syntax.\n\nDetails: ",
            plain_message: "Python syntax error: The generated script contains invalid syntax. Please try regenerating the script.",
        },
        ErrorRule {
            marker: "NameError",
            kind: ErrorKind::Name,
            special: None,
            special_prefix: "",
            detail: LineTest::Contains("is not defined"),
            preferred: Some(LineTest::Contains("NameError:")),
            detail_prefix: "Python name error: A variable or function is used but not defined. This usually means the generated script is missing variable definitions or has incorrect variable names.\n\nDetails: ",
            plain_message: "Python name error: A variable or function is used but not defined. Please try regenerating the script.",
        },
        ErrorRule {
            marker: "TypeError",
            kind: ErrorKind::Type,
            special: None,
            special_prefix: "",
            detail: LineTest::ContainsEither("unsupported operand", "not supported"),
            preferred: None,
            detail_prefix: "Python type error: An operation is performed on incompatible types.\n\nDetails: ",
            plain_message: "Python type error: An operation is performed on incompatible types. Please try regenerating the script.",
        },
        ErrorRule {
            marker: "AttributeError",
            kind: ErrorKind::Attribute,
            special: None,
            special_prefix: "",
            detail: LineTest::Contains("has no attribute"),
            preferred: None,
            detail_prefix: "Python attribute error: An object doesn't have the expected attribute.\n\nDetails: ",
            plain_message: "Python attribute error: An object doesn't have the expected attribute. Please try regenerating the script.",
        },
        ErrorRule {
            marker: "ValueError",
            kind: ErrorKind::Value,
            special: Some(LineTest::ContainsBoth("time data", "does not match format")),
            special_prefix: "Data format error: The script expected a different date/time format than what's in your CSV data. The generated script may need to be adjusted to match your actual data format.\n\nDetails: ",
            detail: LineTest::Contains("ValueError"),
            preferred: Some(LineTest::StartsWith("ValueError:")),
            detail_prefix: "Data value error: The script encountered invalid data values.\n\nDetails: ",
            plain_message: "Python value error: The script encountered invalid data values. Please check your CSV data or try regenerating the script.",
        },
        ErrorRule {
            marker: "KeyError",
            kind: ErrorKind::Key,
            special: None,
            special_prefix: "",
            detail: LineTest::Contains("KeyError"),
            preferred: Some(LineTest::StartsWith("KeyError:")),
            detail_prefix: "Data key error: The script tried to access a column or key that doesn't exist in your data.\n\nDetails: ",
            plain_message: "Python key error: The script tried to access a column or key that doesn't exist. Please check your CSV data or try regenerating the script.",
        },
        ErrorRule {
            marker: "IndexError",
            kind: ErrorKind::Index,
            special: None,
            special_prefix: "",
            detail: LineTest::Contains("IndexError"),
            preferred: Some(LineTest::StartsWith("IndexError:")),
            detail_prefix: "Data index error: The script tried to access a row or column index that doesn't exist.\n\nDetails: ",
            plain_message: "Python index error: The script tried to access a row or column index that doesn't exist. Please check your CSV data or try regenerating the script.",
        },
    ];
    assert(rules@ =~= rule_table());
    rules
}

/// The test that a rule's marker sets: the marker occurs in the line.
pub open spec fn marker_test(rule: ErrorRule) -> LineTest {
    LineTest::Contains(rule.marker)
}

/// Whether the marker of `rule` occurs in some line.
pub open spec fn marked(rule: ErrorRule, lines: Seq<Seq<char>>) -> bool {
    first_line(lines, marker_test(rule)) is Some
}

/// The index of the first rule at or after `from` whose marker occurs in
/// some line.
pub open spec fn selected_rule_from(rules: Seq<ErrorRule>, lines: Seq<Seq<char>>, from: int) -> Option<
    int,
>
    decreases rules.len() - from,
{
    if from < 0 || from >= rules.len() {
        None
    } else if marked(rules[from], lines) {
        Some(from)
    } else {
        selected_rule_from(rules, lines, from + 1)
    }
}

/// The rule that a traceback selects: the first rule of the table whose
/// marker occurs in some line.
pub open spec fn selected_rule(rules: Seq<ErrorRule>, lines: Seq<Seq<char>>) -> Option<int> {
    selected_rule_from(rules, lines, 0)
}

/// How many lines the summary of an unclassified traceback holds at most.
pub open spec fn summary_limit() -> nat {
    5
}

/// The first lines among the first `upto` that are not blank, trimmed, as
/// many as the summary holds at most.
pub open spec fn summary_parts(lines: Seq<Seq<char>>, upto: int) -> Seq<Seq<char>>
    decreases upto,
{
    if upto <= 0 {
        Seq::empty()
    } else {
        let before = summary_parts(lines, upto - 1);
        if before.len() < summary_limit() && upto <= lines.len() && trimmed(lines[upto - 1]).len()
            > 0 {
            before.push(trimmed(lines[upto - 1]))
        } else {
            before
        }
    }
}

/// The message for a traceback that no rule claims.
pub open spec fn fallback_message(lines: Seq<Seq<char>>) -> Seq<char> {
    let parts = summary_parts(lines, lines.len() as int);
    if parts.len() == 0 {
        "Script execution failed. Please check the generated script for errors."@
    } else {
        "Script execution failed:\n\n"@ + joined(parts, "\n"@)
    }
}

/// The failure mode of a traceback.
pub open spec fn diagnosed_kind(rules: Seq<ErrorRule>, lines: Seq<Seq<char>>) -> ErrorKind {
    match selected_rule(rules, lines) {
        Some(r) => rules[r].kind,
        None => ErrorKind::Unclassified,
    }
}

/// The diagnostic line extracted from a traceback.
pub open spec fn diagnosed_detail(rules: Seq<ErrorRule>, lines: Seq<Seq<char>>) -> Option<
    Seq<char>,
> {
    match selected_rule(rules, lines) {
        Some(r) => rules[r].extract(lines),
        None => None,
    }
}

/// The message for a traceback.
pub open spec fn diagnosed_message(rules: Seq<ErrorRule>, lines: Seq<Seq<char>>) -> Seq<char> {
    match selected_rule(rules, lines) {
        Some(r) => rules[r].message(lines),
        None => fallback_message(lines),
    }
}

/// What a traceback was classified as.
#[derive(Clone, Debug, PartialEq, Eq)]
pub struct Diagnosis {
    /// The failure mode.
    pub kind: ErrorKind,
    /// The message for the user.
    pub message: String,
    /// The diagnostic line that the message quotes, if one was found.
    pub detail: Option<String>,
}

/// The rule that a traceback selects.
pub fn select_rule(rules: &Vec<ErrorRule>, lines: &Vec<Vec<char>>) -> (found: Option<usize>)
    ensures
        match found {
            Some(r) => r < rules.len() && selected_rule(rules@, views(lines@)) == Some(r as int),
            None => selected_rule(rules@, views(lines@)) is None,
        },
{
    let mut r: usize = 0;
    while r < rules.len()
        invariant
            r <= rules.len(),
            selected_rule(rules@, views(lines@)) == selected_rule_from(
                rules@,
                views(lines@),
                r as int,
            ),
        decreases rules.len() - r,
    {
        let test = LineTest::Contains(rules[r].marker);
        if find_line(lines, &test).is_some() {
            return Some(r);
        }
        r += 1;
    }
    None
}

/// The message for a traceback that no rule claims.
pub fn summarize(lines: &Vec<Vec<char>>) -> (message: String)
    ensures
        message@ == fallback_message(views(lines@)),
{
    let mut parts: Vec<Vec<char>> = Vec::new();
    let mut i: usize = 0;
    while i < lines.len() && parts.len() < 5
        invariant
            i <= lines.len(),
            views(parts@) == summary_parts(views(lines@), i as int),
        decreases lines.len() - i,
    {
        let (a, b) = trim_bounds(&lines[i]);
        if a < b {
            let part = chars_of_range(&lines[i], a, b);
            let ghost before = views(parts@);
            parts.push(part);
            assert(views(parts@) =~= before.push(part@));
        }
        i += 1;
    }
    proof {
        if i < lines.len() {
            lemma_summary_is_full(views(lines@), i as int, lines.len() as int);
        }
    }
    if parts.len() == 0 {
        String::from_str("Script execution failed. Please check the generated script for errors.")
    } else {
        let summary = join_chars(&parts, "\n");
        let mut message = String::from_str("Script execution failed:\n\n");
        message.append(summary.as_str());
        message
    }
}

/// Classifies a traceback by the rules of `rules`.
pub fn classify(rules: &Vec<ErrorRule>, stderr: &str) -> (d: Diagnosis)
    ensures
        d.kind == diagnosed_kind(rules@, lines_of(stderr@)),
        d.message@ == diagnosed_message(rules@, lines_of(stderr@)),
        opt_view(d.detail) == diagnosed_detail(rules@, lines_of(stderr@)),
{
    let lines = split_lines(stderr);
    match select_rule(rules, &lines) {
        Some(r) => {
            let rule = &rules[r];
            let (shown, special) = rule.find_shown(&lines);
            match shown {
                Some(i) => {
                    let (a, b) = trim_bounds(&lines[i]);
                    let detail = crate::text::string_of_range(&lines[i], a, b);
                    let mut message = if special {
                        String::from_str(rule.special_prefix)
                    } else {
                        String::from_str(rule.detail_prefix)
                    };
                    message.append(detail.as_str());
                    Diagnosis { kind: rule.kind, message, detail: Some(detail) }
                },
                None => Diagnosis {
                    kind: rule.kind,
                    message: String::from_str(rule.plain_message),
                    detail: None,
                },
            }
        },
        None => Diagnosis { kind: ErrorKind::Unclassified, message: summarize(&lines), detail: None },
    }
}

/// Classifies a traceback by the rules of [`rule_table`].
pub fn diagnose(stderr: &str) -> (d: Diagnosis)
    ensures
        d.kind == diagnosed_kind(rule_table(), lines_of(stderr@)),
        d.message@ == diagnosed_message(rule_table(), lines_of(stderr@)),
        opt_view(d.detail) == diagnosed_detail(rule_table(), lines_of(stderr@)),
{
    let rules = error_rules();
    classify(&rules, stderr)
}

/// A summary that is full takes no further line.
pub proof fn lemma_summary_is_full(lines: Seq<Seq<char>>, at: int, upto: int)
    requires
        0 <= at <= upto,
        summary_parts(lines, at).len() >= summary_limit(),
    ensures
        summary_parts(lines, upto) == summary_parts(lines, at),
    decreases upto - at,
{
    if at < upto {
        lemma_summary_is_full(lines, at, upto - 1);
    }
}

/// A summary holds five lines at most, none of them empty.
pub proof fn lemma_summary_is_short(lines: Seq<Seq<char>>, upto: int)
    ensures
        summary_parts(lines, upto).len() <= summary_limit(),
        forall|k: int|
            0 <= k < summary_parts(lines, upto).len() ==> (#[trigger] summary_parts(
                lines,
                upto,
            )[k]).len() > 0,
    decreases upto,
{
    if upto > 0 {
        lemma_summary_is_short(lines, upto - 1);
    }
}

/// Where no more than five lines of a traceback are other than blank, the
/// summary holds each of them: line `at`, trimmed, is one of its lines.
pub proof fn lemma_summary_holds_line(lines: Seq<Seq<char>>, at: int, upto: int)
    requires
        0 <= at < upto <= lines.len(),
        trimmed(lines[at]).len() > 0,
        summary_parts(lines, at).len() < summary_limit(),
    ensures
        summary_parts(lines, upto).len() > summary_parts(lines, at).len(),
        summary_parts(lines, upto)[summary_parts(lines, at).len() as int] == trimmed(lines[at]),
    decreases upto - at,
{
    if at + 1 < upto {
        lemma_summary_holds_line(lines, at, upto - 1);
    }
}

/// A line that passes a test is found, or an earlier one that passes it.
pub proof fn lemma_line_is_found(lines: Seq<Seq<char>>, test: LineTest, at: int, from: int)
    requires
        0 <= from <= at < lines.len(),
        test.holds(lines[at]),
    ensures
        first_line_from(lines, test, from) is Some,
        first_line_from(lines, test, from)->Some_0 <= at,
    decreases at - from,
{
    if from < at && !test.holds(lines[from]) {
        lemma_line_is_found(lines, test, at, from + 1);
    }
}

/// The order of the table decides, not the order of the lines: where the
/// marker of rule `r` occurs in some line and the marker of no earlier rule
/// occurs in any line, the traceback is classified by rule `r`.
pub proof fn lemma_first_marked_rule_decides(
    rules: Seq<ErrorRule>,
    lines: Seq<Seq<char>>,
    r: int,
    from: int,
)
    requires
        0 <= from <= r < rules.len(),
        marked(rules[r], lines),
        forall|q: int| 0 <= q < r ==> !marked(#[trigger] rules[q], lines),
    ensures
        selected_rule_from(rules, lines, from) == Some(r),
        from == 0 ==> diagnosed_kind(rules, lines) == rules[r].kind,
        from == 0 ==> diagnosed_message(rules, lines) == rules[r].message(lines),
        from == 0 ==> diagnosed_detail(rules, lines) == rules[r].extract(lines),
    decreases r - from,
{
    if from < r {
        assert(!marked(rules[from], lines));
        lemma_first_marked_rule_decides(rules, lines, r, from + 1);
    }
}

/// A traceback with a line that names an indentation error is classified as
/// one, whatever other markers it holds; and where a line says what is wrong
/// with the indentation, the message ends with the first such line, trimmed.
pub proof fn lemma_indentation_comes_first(lines: Seq<Seq<char>>, at: int)
    requires
        0 <= at < lines.len(),
        contains(lines[at], "IndentationError"@),
    ensures
        diagnosed_kind(rule_table(), lines) == ErrorKind::Indentation,
        diagnosed_message(rule_table(), lines) == indentation_rule().message(lines),
        match first_line(lines, indentation_rule().detail) {
            Some(d) => diagnosed_message(rule_table(), lines) == indentation_rule().detail_prefix@
                + trimmed(lines[d]) && diagnosed_detail(rule_table(), lines) == Some(
                trimmed(lines[d]),
            ),
            None => diagnosed_message(rule_table(), lines) == indentation_rule().plain_message@,
        },
{
    lemma_line_is_found(lines, marker_test(indentation_rule()), at, 0);
    assert(rule_table()[0] == indentation_rule());
    lemma_first_marked_rule_decides(rule_table(), lines, 0, 0);
}

/// A traceback in which no rule's marker occurs is not classified, and its
/// message is the summary of its first lines.
pub proof fn lemma_unmarked_is_summarised(rules: Seq<ErrorRule>, lines: Seq<Seq<char>>, from: int)
    requires
        0 <= from,
        forall|q: int| 0 <= q < rules.len() ==> !marked(#[trigger] rules[q], lines),
    ensures
        selected_rule_from(rules, lines, from) is None,
        from == 0 ==> diagnosed_kind(rules, lines) == ErrorKind::Unclassified,
        from == 0 ==> diagnosed_message(rules, lines) == fallback_message(lines),
    decreases rules.len() - from,
{
    if from < rules.len() {
        assert(!marked(rules[from], lines));
        lemma_unmarked_is_summarised(rules, lines, from + 1);
    }
}

/// The message of a classified traceback quotes the diagnostic line that
/// was extracted from it.
pub proof fn lemma_message_quotes_detail(rules: Seq<ErrorRule>, lines: Seq<Seq<char>>)
    ensures
        match diagnosed_detail(rules, lines) {
            Some(detail) => contains(diagnosed_message(rules, lines), detail),
            None => true,
        },
{
    match diagnosed_detail(rules, lines) {
        Some(detail) => {
            let rule = rules[selected_rule(rules, lines)->Some_0];
            let prefix = if rule.special_line(lines) is Some {
                rule.special_prefix@
            } else {
                rule.detail_prefix@
            };
            let message = diagnosed_message(rules, lines);
            assert(message == prefix + detail);
            assert(message.subrange(prefix.len() as int, (prefix.len() + detail.len()) as int) =~= detail);
            assert(matches_at(message, detail, prefix.len() as int));
        },
        None => {},
    }
}

} // verus!
