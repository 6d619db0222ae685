//! Validation of a table against rules on its columns.
//!
//! Each rule speaks of one column. The rules are tried in their order, each
//! over all rows from the first to the last, and every violation is
//! reported.
//!
//! A `Range` rule compares numbers that may have a fractional part. That
//! comparison is the caller's: for each `Range` rule the caller says of each
//! row whether its value is a number outside the bounds, and the errors are
//! made of that here, like those of every other rule.
//! [`Validator::range_rules`] tells for which rules this is asked. A
//! `Custom` rule has its logic with the user and reports nothing.

use vstd::prelude::*;
use vstd::string::*;
use vstd::utf8::encode_utf8;
use crate::csv_engine::table::{cell, get_cell, get_header, get_param, header_name, param};
use crate::pattern::{compile, is_match, pattern_compiles, pattern_matches, regex_source, Pattern};
use crate::text::{
    decimal, is_blank, parse_usize, parsed_usize, push_decimal, str_eq, str_is_blank,
};

verus! {

/// The kinds of rule.
#[derive(Clone, Copy, Debug, PartialEq, Eq, Structural)]
pub enum ValidationRuleType {
    Range,
    Length,
    Pattern,
    Custom,
    Required,
    Unique,
}

/// A rule on one column. Its parameters are named values; a later parameter
/// replaces an earlier one of the same name.
#[derive(Clone, Debug, PartialEq, Eq)]
pub struct ValidationRule {
    pub rule_type: ValidationRuleType,
    pub column_index: usize,
    pub column_name: String,
    pub parameters: Vec<(String, String)>,
    pub error_message: Option<String>,
}

/// The mathematical value of a [`ValidationRule`].
pub struct ValidationRuleView {
    pub rule_type: ValidationRuleType,
    pub column_index: usize,
    pub column_name: Seq<char>,
    pub parameters: Seq<(Seq<char>, Seq<char>)>,
    pub error_message: Option<Seq<char>>,
}

impl DeepView for ValidationRule {
    type V = ValidationRuleView;

    open spec fn deep_view(&self) -> ValidationRuleView {
        ValidationRuleView {
            rule_type: self.rule_type,
            column_index: self.column_index,
            column_name: self.column_name@,
            parameters: self.parameters.deep_view(),
            error_message: self.error_message.deep_view(),
        }
    }
}

/// A cell that breaks a rule.
#[derive(Clone, Debug, PartialEq, Eq)]
pub struct ValidationError {
    pub row_index: usize,
    pub column_index: usize,
    pub column_name: String,
    pub value: String,
    pub rule_type: ValidationRuleType,
    pub message: String,
}

/// The mathematical value of a [`ValidationError`].
pub struct ValidationErrorView {
    pub row_index: usize,
    pub column_index: usize,
    pub column_name: Seq<char>,
    pub value: Seq<char>,
    pub rule_type: ValidationRuleType,
    pub message: Seq<char>,
}

impl DeepView for ValidationError {
    type V = ValidationErrorView;

    open spec fn deep_view(&self) -> ValidationErrorView {
        ValidationErrorView {
            row_index: self.row_index,
            column_index: self.column_index,
            column_name: self.column_name@,
            value: self.value@,
            rule_type: self.rule_type,
            message: self.message@,
        }
    }
}

/// The length of a value in bytes of UTF-8.
pub open spec fn byte_len(value: Seq<char>) -> usize {
    encode_utf8(value).len() as usize
}

/// A bound on the length: the parameter `key` where it writes an index.
pub open spec fn length_bound(rule: ValidationRuleView, key: Seq<char>) -> Option<usize> {
    match param(rule.parameters, key) {
        Some(text) => parsed_usize(text),
        None => None,
    }
}

/// Whether a value breaks the bounds of a `Length` rule.
pub open spec fn length_broken(rule: ValidationRuleView, value: Seq<char>) -> bool {
    ||| (length_bound(rule, "min_length"@) is Some && byte_len(value) < length_bound(
        rule,
        "min_length"@,
    )->Some_0)
    ||| (length_bound(rule, "max_length"@) is Some && byte_len(value) > length_bound(
        rule,
        "max_length"@,
    )->Some_0)
}

/// The pattern of a `Pattern` rule, where it has one that is accepted.
pub open spec fn rule_pattern(rule: ValidationRuleView) -> Option<Seq<char>> {
    match param(rule.parameters, "pattern"@) {
        Some(p) => if pattern_compiles(p) {
            Some(p)
        } else {
            None
        },
        None => None,
    }
}

/// The first of the first `upto` rows that holds `value` in column `col`.
pub open spec fn first_seen(data: Seq<Seq<Seq<char>>>, col: int, value: Seq<char>, upto: int) -> Option<
    int,
> {
    first_seen_from(data, col, value, 0, upto)
}

/// The first of the rows from `from` up to `upto` that holds `value` in
/// column `col`.
pub open spec fn first_seen_from(
    data: Seq<Seq<Seq<char>>>,
    col: int,
    value: Seq<char>,
    from: int,
    upto: int,
) -> Option<int>
    decreases upto - from,
{
    if from < 0 || from >= upto {
        None
    } else if cell(data, from, col) == Some(value) {
        Some(from)
    } else {
        first_seen_from(data, col, value, from + 1, upto)
    }
}

/// What the caller found for row `row`: whether the value of the row is a
/// number outside the bounds. Nothing was found for a row that the caller
/// did not speak of.
pub open spec fn marked(marks: Seq<bool>, row: int) -> bool {
    0 <= row < marks.len() && marks[row]
}

/// What the caller found for rule `rule`, row by row; nothing for a rule
/// that the caller did not speak of.
pub open spec fn marks_of(out_of_range: Seq<Seq<bool>>, rule: int) -> Seq<bool> {
    if 0 <= rule < out_of_range.len() {
        out_of_range[rule]
    } else {
        Seq::empty()
    }
}

/// The message for a cell that breaks a rule, as long as the rule brings
/// none of its own; nothing where the cell keeps the rule. For a `Range`
/// rule, `outside` says whether the value is a number outside the bounds.
pub open spec fn violation(
    rule: ValidationRuleView,
    data: Seq<Seq<Seq<char>>>,
    row: int,
    outside: bool,
) -> Option<Seq<char>> {
    match cell(data, row, rule.column_index as int) {
        None => None,
        Some(value) => match rule.rule_type {
            ValidationRuleType::Length => if length_broken(rule, value) {
                Some("Length "@ + decimal(byte_len(value) as nat) + " is invalid"@)
            } else {
                None
            },
            ValidationRuleType::Pattern => if rule_pattern(rule) is Some && value.len() > 0
                && !pattern_matches(rule_pattern(rule)->Some_0, value) {
                Some("Value '"@ + value + "' does not match pattern"@)
            } else {
                None
            },
            ValidationRuleType::Required => if is_blank(value) {
                Some("Required field is empty"@)
            } else {
                None
            },
            ValidationRuleType::Unique => if value.len() > 0 && first_seen(
                data,
                rule.column_index as int,
                value,
                row,
            ) is Some {
                Some(
                    "Duplicate value '"@ + value + "' (first seen at row "@ + decimal(
                        (first_seen(data, rule.column_index as int, value, row)->Some_0 + 1) as nat,
                    ) + ")"@,
                )
            } else {
                None
            },
            ValidationRuleType::Range => if outside {
                Some("Value "@ + value + " is out of range"@)
            } else {
                None
            },
            ValidationRuleType::Custom => None,
        },
    }
}

/// The error that a rule reports for a row, if the row breaks the rule.
pub open spec fn error_at(
    rule: ValidationRuleView,
    data: Seq<Seq<Seq<char>>>,
    headers: Seq<Seq<char>>,
    row: int,
    outside: bool,
) -> Option<ValidationErrorView> {
    match violation(rule, data, row, outside) {
        Some(message) => Some(
            ValidationErrorView {
                row_index: row as usize,
                column_index: rule.column_index,
                column_name: header_name(headers, rule.column_index as int),
                value: cell(data, row, rule.column_index as int)->Some_0,
                rule_type: rule.rule_type,
                message: match rule.error_message {
                    Some(own) => own,
                    None => message,
                },
            },
        ),
        None => None,
    }
}

/// The errors that a rule reports for the first `upto` rows, in their order.
pub open spec fn rule_errors(
    rule: ValidationRuleView,
    data: Seq<Seq<Seq<char>>>,
    headers: Seq<Seq<char>>,
    marks: Seq<bool>,
    upto: int,
) -> Seq<ValidationErrorView>
    decreases upto,
{
    if upto <= 0 {
        Seq::empty()
    } else {
        let before = rule_errors(rule, data, headers, marks, upto - 1);
        match error_at(rule, data, headers, upto - 1, marked(marks, upto - 1)) {
            Some(e) => before.push(e),
            None => before,
        }
    }
}

/// The errors that the first `upto` rules report, rule by rule.
pub open spec fn all_errors(
    rules: Seq<ValidationRuleView>,
    data: Seq<Seq<Seq<char>>>,
    headers: Seq<Seq<char>>,
    out_of_range: Seq<Seq<bool>>,
    upto: int,
) -> Seq<ValidationErrorView>
    decreases upto,
{
    if upto <= 0 || upto > rules.len() {
        Seq::empty()
    } else {
        all_errors(rules, data, headers, out_of_range, upto - 1) + rule_errors(
            rules[upto - 1],
            data,
            headers,
            marks_of(out_of_range, upto - 1),
            data.len() as int,
        )
    }
}

/// The indices of the `Range` rules among the first `upto` rules, in
/// their order.
pub open spec fn range_rule_indices(rules: Seq<ValidationRuleView>, upto: int) -> Seq<usize>
    decreases upto,
{
    if upto <= 0 || upto > rules.len() {
        Seq::empty()
    } else if rules[upto - 1].rule_type == ValidationRuleType::Range {
        range_rule_indices(rules, upto - 1).push((upto - 1) as usize)
    } else {
        range_rule_indices(rules, upto - 1)
    }
}

/// A `Range` rule reports exactly the rows that hold a cell in its column
/// and that the caller found outside the bounds: each with the value of the
/// cell and, as long as the rule brings no message of its own, with the
/// message that the value is out of range.
pub proof fn lemma_range_rule_reports_what_was_found(
    rule: ValidationRuleView,
    data: Seq<Seq<Seq<char>>>,
    headers: Seq<Seq<char>>,
    row: int,
    outside: bool,
)
    requires
        rule.rule_type == ValidationRuleType::Range,
    ensures
        error_at(rule, data, headers, row, outside) is Some <==> outside && cell(
            data,
            row,
            rule.column_index as int,
        ) is Some,
        error_at(rule, data, headers, row, outside) is Some ==> {
            let e = error_at(rule, data, headers, row, outside)->Some_0;
            let value = cell(data, row, rule.column_index as int)->Some_0;
            &&& e.row_index == row as usize
            &&& e.column_index == rule.column_index
            &&& e.column_name == header_name(headers, rule.column_index as int)
            &&& e.value == value
            &&& e.rule_type == ValidationRuleType::Range
            &&& e.message == (match rule.error_message {
                Some(own) => own,
                None => "Value "@ + value + " is out of range"@,
            })
        },
{
}

/// What the caller found matters to `Range` rules alone: every other rule
/// reports the same whatever was found.
pub proof fn lemma_other_rules_ignore_what_was_found(
    rule: ValidationRuleView,
    data: Seq<Seq<Seq<char>>>,
    headers: Seq<Seq<char>>,
    marks: Seq<bool>,
    upto: int,
)
    requires
        rule.rule_type != ValidationRuleType::Range,
    ensures
        rule_errors(rule, data, headers, marks, upto) == rule_errors(
            rule,
            data,
            headers,
            Seq::<bool>::empty(),
            upto,
        ),
    decreases upto,
{
    if upto > 0 {
        lemma_other_rules_ignore_what_was_found(rule, data, headers, marks, upto - 1);
    }
}

/// A `Custom` rule, and a `Range` rule of which the caller found nothing,
/// report nothing.
pub proof fn lemma_rule_reports_nothing(
    rule: ValidationRuleView,
    data: Seq<Seq<Seq<char>>>,
    headers: Seq<Seq<char>>,
    marks: Seq<bool>,
    upto: int,
)
    requires
        rule.rule_type == ValidationRuleType::Custom || (rule.rule_type
            == ValidationRuleType::Range && forall|row: int| !#[trigger] marked(marks, row)),
    ensures
        rule_errors(rule, data, headers, marks, upto) == Seq::<ValidationErrorView>::empty(),
    decreases upto,
{
    if upto > 0 {
        lemma_rule_reports_nothing(rule, data, headers, marks, upto - 1);
        if rule.rule_type == ValidationRuleType::Range {
            assert(!marked(marks, upto - 1));
        }
    }
}

/// The rules of a validation.
pub struct Validator {
    rules: Vec<ValidationRule>,
}

impl Validator {
    /// The rules, in the order in which they are tried.
    pub closed spec fn rules(&self) -> Seq<ValidationRuleView> {
        self.rules.deep_view()
    }

    /// A validator for `rules`.
    pub fn new(rules: Vec<ValidationRule>) -> (validator: Validator)
        ensures
            validator.rules() == rules.deep_view(),
    {
        Validator { rules }
    }

    /// The `Range` rules, by their indices: the rules for which
    /// [`Validator::validate`] reads what the caller found.
    pub fn range_rules(&self) -> (indices: Vec<usize>)
        ensures
            indices@ == range_rule_indices(self.rules(), self.rules().len() as int),
    {
        let mut indices: Vec<usize> = Vec::new();
        let mut r: usize = 0;
        while r < self.rules.len()
            invariant
                r <= self.rules.len(),
                indices@ == range_rule_indices(self.rules(), r as int),
            decreases self.rules.len() - r,
        {
            let is_range = match self.rules[r].rule_type {
                ValidationRuleType::Range => true,
                _ => false,
            };
            assert(is_range == (self.rules()[r as int].rule_type == ValidationRuleType::Range));
            if is_range {
                indices.push(r);
            }
            r += 1;
        }
        indices
    }

    /// The violations of the rules in `data`, rule by rule and, for each
    /// rule, from the first row to the last.
    ///
    /// `out_of_range` holds what the caller found for the `Range` rules: at
    /// the index of a rule, for each row, whether the value of the row in
    /// the column of the rule is a number below the rule's `min` or above
    /// its `max`. Where it says nothing of a rule or of a row, nothing was
    /// found. It is not read for any other rule.
    pub fn validate(&self, data: &[Vec<String>], headers: &[String], out_of_range: &[Vec<bool>]) -> (errors:
        Vec<ValidationError>)
        ensures
            errors.deep_view() == all_errors(
                self.rules(),
                data.deep_view(),
                headers.deep_view(),
                out_of_range.deep_view(),
                self.rules().len() as int,
            ),
    {
        let ghost found = out_of_range.deep_view();
        let mut errors: Vec<ValidationError> = Vec::new();
        let mut r: usize = 0;
        assert(errors.deep_view() =~= Seq::empty());
        while r < self.rules.len()
            invariant
                r <= self.rules.len(),
                found == out_of_range.deep_view(),
                errors.deep_view() == all_errors(
                    self.rules(),
                    data.deep_view(),
                    headers.deep_view(),
                    found,
                    r as int,
                ),
            decreases self.rules.len() - r,
        {
            let rule = &self.rules[r];
            let ghost before = errors.deep_view();
            let ghost model = rule.deep_view();
            let ghost marks = marks_of(found, r as int);
            let compiled = Validator::compile_pattern(rule);
            let mut row: usize = 0;
            assert(errors.deep_view() =~= before + rule_errors(
                model,
                data.deep_view(),
                headers.deep_view(),
                marks,
                0,
            ));
            while row < data.len()
                invariant
                    row <= data.len(),
                    r < self.rules.len(),
                    model == rule.deep_view(),
                    found == out_of_range.deep_view(),
                    marks == marks_of(found, r as int),
                    match compiled {
                        Some(re) => rule_pattern(model) == Some(regex_source(re)),
                        None => rule_pattern(model) is None,
                    },
                    errors.deep_view() == before + rule_errors(
                        model,
                        data.deep_view(),
                        headers.deep_view(),
                        marks,
                        row as int,
                    ),
                decreases data.len() - row,
            {
                let ghost so_far = errors.deep_view();
                let outside = r < out_of_range.len() && row < out_of_range[r].len()
                    && out_of_range[r][row];
                proof {
                    if r < out_of_range.len() {
                        assert(found[r as int] == out_of_range[r as int].deep_view());
                        if row < out_of_range[r as int].len() {
                            assert(found[r as int][row as int] == out_of_range[r as int][row as int]);
                        }
                    }
                    assert(outside == marked(marks, row as int));
                }
                if let Some(error) = Validator::check_row(
                    rule,
                    &compiled,
                    data,
                    headers,
                    row,
                    outside,
                ) {
                    errors.push(error);
                    assert(errors.deep_view() =~= so_far.push(error.deep_view()));
                }
                row += 1;
                assert(errors.deep_view() =~= before + rule_errors(
                    model,
                    data.deep_view(),
                    headers.deep_view(),
                    marks,
                    row as int,
                ));
            }
            r += 1;
        }
        errors
    }

    /// The compiled pattern of a rule, where it has one that is accepted.
    fn compile_pattern(rule: &ValidationRule) -> (compiled: Option<Pattern>)
        ensures
            match compiled {
                Some(re) => rule_pattern(rule.deep_view()) == Some(regex_source(re)),
                None => rule_pattern(rule.deep_view()) is None,
            },
    {
        match get_param(&rule.parameters, "pattern") {
            Some(p) => compile(p.as_str()),
            None => None,
        }
    }

    /// A bound on the length of a value.
    fn bound(rule: &ValidationRule, key: &str) -> (r: Option<usize>)
        ensures
            r == length_bound(rule.deep_view(), key@),
    {
        match get_param(&rule.parameters, key) {
            Some(text) => parse_usize(text.as_str()),
            None => None,
        }
    }

    /// The first of the first `upto` rows that holds `value` in column `col`.
    fn find_first_seen(data: &[Vec<String>], col: usize, value: &String, upto: usize) -> (r: Option<
        usize,
    >)
        requires
            upto <= data.len(),
        ensures
            match r {
                Some(j) => j < upto && first_seen(data.deep_view(), col as int, value@, upto as int)
                    == Some(j as int),
                None => first_seen(data.deep_view(), col as int, value@, upto as int) is None,
            },
    {
        let mut j: usize = 0;
        while j < upto
            invariant
                j <= upto <= data.len(),
                first_seen(data.deep_view(), col as int, value@, upto as int) == first_seen_from(
                    data.deep_view(),
                    col as int,
                    value@,
                    j as int,
                    upto as int,
                ),
            decreases upto - j,
        {
            let same = match get_cell(data, j, col) {
                Some(other) => str_eq(other.as_str(), value.as_str()),
                None => false,
            };
            if same {
                return Some(j);
            }
            j += 1;
        }
        None
    }

    /// The message for a cell that breaks the rule, as long as the rule
    /// brings none of its own.
    fn check_value(
        rule: &ValidationRule,
        compiled: &Option<Pattern>,
        data: &[Vec<String>],
        row: usize,
        value: &String,
        outside: bool,
    ) -> (message: Option<String>)
        requires
            row < data.len(),
            cell(data.deep_view(), row as int, rule.column_index as int) == Some(value@),
            match *compiled {
                Some(re) => rule_pattern(rule.deep_view()) == Some(regex_source(re)),
                None => rule_pattern(rule.deep_view()) is None,
            },
        ensures
            message.deep_view() == violation(
                rule.deep_view(),
                data.deep_view(),
                row as int,
                outside,
            ),
    {
        match rule.rule_type {
            ValidationRuleType::Length => {
                let len = value.as_str().len();
                let min = Validator::bound(rule, "min_length");
                let max = Validator::bound(rule, "max_length");
                let too_short = match min {
                    Some(m) => len < m,
                    None => false,
                };
                let too_long = match max {
                    Some(m) => len > m,
                    None => false,
                };
                if too_short || too_long {
                    let mut message = String::from_str("Length ");
                    push_decimal(&mut message, len);
                    message.append(" is invalid");
                    Some(message)
                } else {
                    None
                }
            },
            ValidationRuleType::Pattern => {
                match compiled {
                    Some(re) => {
                        if !value.as_str().is_empty() && !is_match(re, value.as_str()) {
                            let mut message = String::from_str("Value '");
                            message.append(value.as_str());
                            message.append("' does not match pattern");
                            Some(message)
                        } else {
                            None
                        }
                    },
                    None => None,
                }
            },
            ValidationRuleType::Required => {
                if str_is_blank(value.as_str()) {
                    Some(String::from_str("Required field is empty"))
                } else {
                    None
                }
            },
            ValidationRuleType::Unique => {
                if value.as_str().is_empty() {
                    return None;
                }
                match Validator::find_first_seen(data, rule.column_index, value, row) {
                    Some(first) => {
                        let mut message = String::from_str("Duplicate value '");
                        message.append(value.as_str());
                        message.append("' (first seen at row ");
                        push_decimal(&mut message, first + 1);
                        message.append(")");
                        Some(message)
                    },
                    None => None,
                }
            },
            ValidationRuleType::Range => {
                if outside {
                    let mut message = String::from_str("Value ");
                    message.append(value.as_str());
                    message.append(" is out of range");
                    Some(message)
                } else {
                    None
                }
            },
            ValidationRuleType::Custom => None,
        }
    }

    /// The error that the rule reports for a row, if the row breaks the rule.
    fn check_row(
        rule: &ValidationRule,
        compiled: &Option<Pattern>,
        data: &[Vec<String>],
        headers: &[String],
        row: usize,
        outside: bool,
    ) -> (error: Option<ValidationError>)
        requires
            row < data.len(),
            match *compiled {
                Some(re) => rule_pattern(rule.deep_view()) == Some(regex_source(re)),
                None => rule_pattern(rule.deep_view()) is None,
            },
        ensures
            error.deep_view() == error_at(
                rule.deep_view(),
                data.deep_view(),
                headers.deep_view(),
                row as int,
                outside,
            ),
    {
        match get_cell(data, row, rule.column_index) {
            None => None,
            Some(value) => match Validator::check_value(
                rule,
                compiled,
                data,
                row,
                value,
                outside,
            ) {
                None => None,
                Some(default_message) => {
                    let message = match &rule.error_message {
                        Some(own) => own.clone(),
                        None => default_message,
                    };
                    Some(
                        ValidationError {
                            row_index: row,
                            column_index: rule.column_index,
                            column_name: get_header(headers, rule.column_index),
                            value: value.clone(),
                            rule_type: rule.rule_type,
                            message,
                        },
                    )
                },
            },
        }
    }
}

} // verus!
