//! What a request in plain words asks for, found by its keywords.
//!
//! The keywords are tried in a fixed order and the first group that has one
//! of its words in the request decides.

use vstd::prelude::*;
use vstd::string::*;
use crate::pattern::{
    all_captures, capture, capture_all, compile, first_capture, pattern_compiles,
};
use crate::text::{
    contains, decimal, join_strings, joined, lower, lowercase, parse_usize, parsed_usize,
    push_decimal, str_contains,
};

verus! {

/// The operation that the user wants.
#[derive(Clone, Debug, PartialEq, Eq)]
pub enum IntentType {
    Analysis { analysis_type: AnalysisType },
    Transformation { operation: TransformOperation },
}

/// The kinds of analysis.
#[derive(Clone, Copy, Debug, PartialEq, Eq, Structural)]
pub enum AnalysisType {
    Statistics,
    Distribution,
    Correlation,
    Outliers,
    Missing,
    Duplicates,
    Summary,
}

/// The kinds of transformation.
#[derive(Clone, Debug, PartialEq, Eq)]
pub enum TransformOperation {
    Normalize,
    FormatDates { target_format: String },
    FormatNumbers { decimal_places: usize },
    RemoveDuplicates,
    FillMissing { strategy: String },
    Capitalize,
    Lowercase,
    Uppercase,
    Trim,
    Replace { from: String, to: String },
}

/// The part of the table that an operation is about.
#[derive(Clone, Debug, PartialEq, Eq)]
pub enum TargetScope {
    AllData,
    Column { name: String },
    Columns { names: Vec<String> },
    Selection { rows: Vec<usize>, columns: Vec<usize> },
}

/// The mathematical value of a [`TransformOperation`].
pub enum TransformOperationView {
    Normalize,
    FormatDates { target_format: Seq<char> },
    FormatNumbers { decimal_places: usize },
    RemoveDuplicates,
    FillMissing { strategy: Seq<char> },
    Capitalize,
    Lowercase,
    Uppercase,
    Trim,
    Replace { from: Seq<char>, to: Seq<char> },
}

impl DeepView for TransformOperation {
    type V = TransformOperationView;

    open spec fn deep_view(&self) -> TransformOperationView {
        match self {
            TransformOperation::Normalize => TransformOperationView::Normalize,
            TransformOperation::FormatDates { target_format } => TransformOperationView::FormatDates {
                target_format: target_format@,
            },
            TransformOperation::FormatNumbers {
                decimal_places,
            } => TransformOperationView::FormatNumbers { decimal_places: *decimal_places },
            TransformOperation::RemoveDuplicates => TransformOperationView::RemoveDuplicates,
            TransformOperation::FillMissing { strategy } => TransformOperationView::FillMissing {
                strategy: strategy@,
            },
            TransformOperation::Capitalize => TransformOperationView::Capitalize,
            TransformOperation::Lowercase => TransformOperationView::Lowercase,
            TransformOperation::Uppercase => TransformOperationView::Uppercase,
            TransformOperation::Trim => TransformOperationView::Trim,
            TransformOperation::Replace { from, to } => TransformOperationView::Replace {
                from: from@,
                to: to@,
            },
        }
    }
}

/// The mathematical value of an [`IntentType`].
pub enum IntentTypeView {
    Analysis { analysis_type: AnalysisType },
    Transformation { operation: TransformOperationView },
}

impl DeepView for IntentType {
    type V = IntentTypeView;

    open spec fn deep_view(&self) -> IntentTypeView {
        match self {
            IntentType::Analysis { analysis_type } => IntentTypeView::Analysis {
                analysis_type: *analysis_type,
            },
            IntentType::Transformation { operation } => IntentTypeView::Transformation {
                operation: operation.deep_view(),
            },
        }
    }
}

/// The mathematical value of a [`TargetScope`].
pub enum TargetScopeView {
    AllData,
    Column { name: Seq<char> },
    Columns { names: Seq<Seq<char>> },
    Selection { rows: Seq<usize>, columns: Seq<usize> },
}

impl DeepView for TargetScope {
    type V = TargetScopeView;

    open spec fn deep_view(&self) -> TargetScopeView {
        match self {
            TargetScope::AllData => TargetScopeView::AllData,
            TargetScope::Column { name } => TargetScopeView::Column { name: name@ },
            TargetScope::Columns { names } => TargetScopeView::Columns { names: names.deep_view() },
            TargetScope::Selection { rows, columns } => TargetScopeView::Selection {
                rows: rows.deep_view(),
                columns: columns.deep_view(),
            },
        }
    }
}

/// Where an intent was read from.
#[derive(Clone, Copy, Debug, PartialEq, Eq, Structural)]
pub enum IntentSource {
    /// The keywords of the request.
    Keywords,
    /// The answer of the text-generation service.
    Service,
}

/// What a request asks for and on which part of the table.
#[derive(Clone, Debug, PartialEq, Eq)]
pub struct Intent {
    pub intent_type: IntentType,
    pub target_scope: TargetScope,
    pub source: IntentSource,
}

/// The mathematical value of an [`Intent`].
pub struct IntentView {
    pub intent_type: IntentTypeView,
    pub target_scope: TargetScopeView,
    pub source: IntentSource,
}

impl DeepView for Intent {
    type V = IntentView;

    open spec fn deep_view(&self) -> IntentView {
        IntentView {
            intent_type: self.intent_type.deep_view(),
            target_scope: self.target_scope.deep_view(),
            source: self.source,
        }
    }
}

/// Why no intent was found.
#[derive(Clone, Copy, Debug, PartialEq, Eq, Structural)]
pub enum IntentError {
    /// The request holds none of the keywords.
    NotUnderstood,
    /// The answer of the service is no JSON object of the expected shape.
    MalformedAnswer,
    /// The answer names an unknown kind of intent.
    UnknownIntentType,
    /// The answer names an unknown kind of analysis.
    UnknownAnalysisType,
    /// The answer names an unknown transformation.
    UnknownOperation,
}

/// The pattern for a name in quotes.
pub open spec fn quoted_pattern() -> Seq<char> {
    "[\"']([^\"']+)[\"']"@
}

/// The pattern for a name after `column` or `the`.
pub open spec fn column_pattern() -> Seq<char> {
    "(?:column|the)\\s+(\\w+)"@
}

/// The pattern for a number of decimal places.
pub open spec fn decimal_pattern() -> Seq<char> {
    "(\\d+)\\s*decimal"@
}

/// The pattern for what is replaced by what.
pub open spec fn replace_pattern() -> Seq<char> {
    "replace\\s+[\"']([^\"']+)[\"']\\s+(?:with|by|to)\\s+[\"']([^\"']+)[\"']"@
}

/// The captures among the first `upto` that hold a text, in their order.
pub open spec fn held(captures: Seq<Option<Seq<char>>>, upto: int) -> Seq<Seq<char>>
    decreases upto,
{
    if upto <= 0 {
        Seq::empty()
    } else {
        let before = held(captures, upto - 1);
        if upto <= captures.len() && captures[upto - 1] is Some {
            before.push(captures[upto - 1]->Some_0)
        } else {
            before
        }
    }
}

/// The first group of the leftmost match of `pattern` in `text`, where the
/// pattern is accepted, matches, and the group took part.
pub open spec fn captured(pattern: Seq<char>, text: Seq<char>, group: nat) -> Option<Seq<char>> {
    if pattern_compiles(pattern) {
        match first_capture(pattern, text, group) {
            Some(Some(t)) => Some(t),
            _ => None,
        }
    } else {
        None
    }
}

/// The names in quotes that a request holds.
pub open spec fn quoted_names(prompt: Seq<char>) -> Seq<Seq<char>> {
    if pattern_compiles(quoted_pattern()) {
        let captures = all_captures(quoted_pattern(), prompt, 1);
        held(captures, captures.len() as int)
    } else {
        Seq::empty()
    }
}

/// The part of the table that a request is about: the names in quotes,
/// else the word after `column` or `the`, else the whole table.
pub open spec fn target_scope_of(prompt: Seq<char>, lower: Seq<char>) -> TargetScopeView {
    let names = quoted_names(prompt);
    if names.len() > 1 {
        TargetScopeView::Columns { names }
    } else if names.len() == 1 {
        TargetScopeView::Column { name: names[0] }
    } else {
        match captured(column_pattern(), lower, 1) {
            Some(name) => TargetScopeView::Column { name },
            None => TargetScopeView::AllData,
        }
    }
}

/// The number of decimal places that a request names.
pub open spec fn decimal_places_of(prompt: Seq<char>) -> Option<usize> {
    match captured(decimal_pattern(), prompt, 1) {
        Some(digits) => parsed_usize(digits),
        None => None,
    }
}

/// What a request wants replaced, and by what.
pub open spec fn replace_params_of(prompt: Seq<char>) -> Option<(Seq<char>, Seq<char>)> {
    match (captured(replace_pattern(), prompt, 1), captured(replace_pattern(), prompt, 2)) {
        (Some(from), Some(to)) => Some((from, to)),
        _ => None,
    }
}

/// The transformation that a request asks for, given the request as it was
/// written and in lower case.
pub open spec fn transform_operation_of(prompt: Seq<char>, lower: Seq<char>) -> Option<
    TransformOperationView,
> {
    if contains(lower, "date"@) && (contains(lower, "format"@) || contains(lower, "convert"@)
        || contains(lower, "standardize"@)) {
        Some(
            TransformOperationView::FormatDates {
                target_format: match date_format_of(prompt) {
                    Some(f) => f,
                    None => "YYYY-MM-DD"@,
                },
            },
        )
    } else if (contains(lower, "number"@) || contains(lower, "decimal"@)) && contains(
        lower,
        "format"@,
    ) {
        Some(
            TransformOperationView::FormatNumbers {
                decimal_places: match decimal_places_of(prompt) {
                    Some(n) => n,
                    None => 2,
                },
            },
        )
    } else if contains(lower, "remove"@) && contains(lower, "duplicate"@) {
        Some(TransformOperationView::RemoveDuplicates)
    } else if (contains(lower, "fill"@) || contains(lower, "replace"@)) && (contains(
        lower,
        "missing"@,
    ) || contains(lower, "null"@)) {
        Some(
            TransformOperationView::FillMissing {
                strategy: match fill_strategy_of(lower) {
                    Some(s) => s,
                    None => "mean"@,
                },
            },
        )
    } else if contains(lower, "capitalize"@) {
        Some(TransformOperationView::Capitalize)
    } else if contains(lower, "lowercase"@) || contains(lower, "lower case"@) {
        Some(TransformOperationView::Lowercase)
    } else if contains(lower, "uppercase"@) || contains(lower, "upper case"@) {
        Some(TransformOperationView::Uppercase)
    } else if contains(lower, "trim"@) || contains(lower, "remove whitespace"@) {
        Some(TransformOperationView::Trim)
    } else if contains(lower, "replace"@) && replace_params_of(prompt) is Some {
        Some(
            TransformOperationView::Replace {
                from: replace_params_of(prompt)->Some_0.0,
                to: replace_params_of(prompt)->Some_0.1,
            },
        )
    } else if contains(lower, "normalize"@) || contains(lower, "standardize"@) {
        Some(TransformOperationView::Normalize)
    } else {
        None
    }
}

/// The intent of a request, given the request as it was written and in
/// lower case: an analysis where it names one, else a transformation where
/// it names one.
pub open spec fn intent_of(prompt: Seq<char>, lower: Seq<char>) -> Option<IntentView> {
    match analysis_type_of(lower) {
        Some(analysis_type) => Some(
            IntentView {
                intent_type: IntentTypeView::Analysis { analysis_type },
                target_scope: target_scope_of(prompt, lower),
                source: IntentSource::Keywords,
            },
        ),
        None => match transform_operation_of(prompt, lower) {
            Some(operation) => Some(
                IntentView {
                    intent_type: IntentTypeView::Transformation { operation },
                    target_scope: target_scope_of(prompt, lower),
                    source: IntentSource::Keywords,
                },
            ),
            None => None,
        },
    }
}

/// The analysis that a request in lower case asks for.
pub open spec fn analysis_type_of(prompt: Seq<char>) -> Option<AnalysisType> {
    if contains(prompt, "statistic"@) || contains(prompt, "stats"@) || contains(prompt, "mean"@)
        || contains(prompt, "average"@) || contains(prompt, "median"@) || contains(
        prompt,
        "sum"@,
    ) {
        Some(AnalysisType::Statistics)
    } else if contains(prompt, "distribution"@) || contains(prompt, "histogram"@) || contains(
        prompt,
        "frequency"@,
    ) || contains(prompt, "range"@) {
        Some(AnalysisType::Distribution)
    } else if contains(prompt, "correlation"@) || contains(prompt, "correlate"@) || contains(
        prompt,
        "relationship"@,
    ) || contains(prompt, "relate"@) {
        Some(AnalysisType::Correlation)
    } else if contains(prompt, "outlier"@) || contains(prompt, "anomal"@) || contains(
        prompt,
        "unusual"@,
    ) || contains(prompt, "extreme"@) {
        Some(AnalysisType::Outliers)
    } else if contains(prompt, "missing"@) || contains(prompt, "null"@) || contains(
        prompt,
        "empty"@,
    ) || contains(prompt, "blank"@) {
        Some(AnalysisType::Missing)
    } else if contains(prompt, "duplicate"@) || contains(prompt, "repeated"@) || (contains(
        prompt,
        "same"@,
    ) && contains(prompt, "row"@)) {
        Some(AnalysisType::Duplicates)
    } else if contains(prompt, "summary"@) || contains(prompt, "overview"@) || contains(
        prompt,
        "describe"@,
    ) || (contains(prompt, "show me"@) && contains(prompt, "data"@)) {
        Some(AnalysisType::Summary)
    } else {
        None
    }
}

/// The date format that a request names.
pub open spec fn date_format_of(prompt: Seq<char>) -> Option<Seq<char>> {
    if contains(prompt, "YYYY-MM-DD"@) || contains(prompt, "yyyy-mm-dd"@) {
        Some("YYYY-MM-DD"@)
    } else if contains(prompt, "DD/MM/YYYY"@) || contains(prompt, "dd/mm/yyyy"@) {
        Some("DD/MM/YYYY"@)
    } else if contains(prompt, "MM/DD/YYYY"@) || contains(prompt, "mm/dd/yyyy"@) {
        Some("MM/DD/YYYY"@)
    } else if contains(prompt, "ISO"@) || contains(prompt, "iso"@) {
        Some("YYYY-MM-DD"@)
    } else {
        None
    }
}

/// The way of filling missing values that a request names.
pub open spec fn fill_strategy_of(prompt: Seq<char>) -> Option<Seq<char>> {
    if contains(prompt, "mean"@) || contains(prompt, "average"@) {
        Some("mean"@)
    } else if contains(prompt, "median"@) {
        Some("median"@)
    } else if contains(prompt, "mode"@) {
        Some("mode"@)
    } else if contains(prompt, "zero"@) {
        Some("zero"@)
    } else if contains(prompt, "forward"@) {
        Some("forward"@)
    } else {
        None
    }
}

/// The analysis that a request in lower case asks for.
pub fn detect_analysis_type(prompt: &str) -> (r: Option<AnalysisType>)
    ensures
        r == analysis_type_of(prompt@),
{
    if str_contains(prompt, "statistic") || str_contains(prompt, "stats") || str_contains(
        prompt,
        "mean",
    ) || str_contains(prompt, "average") || str_contains(prompt, "median") || str_contains(
        prompt,
        "sum",
    ) {
        return Some(AnalysisType::Statistics);
    }
    if str_contains(prompt, "distribution") || str_contains(prompt, "histogram") || str_contains(
        prompt,
        "frequency",
    ) || str_contains(prompt, "range") {
        return Some(AnalysisType::Distribution);
    }
    if str_contains(prompt, "correlation") || str_contains(prompt, "correlate") || str_contains(
        prompt,
        "relationship",
    ) || str_contains(prompt, "relate") {
        return Some(AnalysisType::Correlation);
    }
    if str_contains(prompt, "outlier") || str_contains(prompt, "anomal") || str_contains(
        prompt,
        "unusual",
    ) || str_contains(prompt, "extreme") {
        return Some(AnalysisType::Outliers);
    }
    if str_contains(prompt, "missing") || str_contains(prompt, "null") || str_contains(
        prompt,
        "empty",
    ) || str_contains(prompt, "blank") {
        return Some(AnalysisType::Missing);
    }
    if str_contains(prompt, "duplicate") || str_contains(prompt, "repeated") || (str_contains(
        prompt,
        "same",
    ) && str_contains(prompt, "row")) {
        return Some(AnalysisType::Duplicates);
    }
    if str_contains(prompt, "summary") || str_contains(prompt, "overview") || str_contains(
        prompt,
        "describe",
    ) || (str_contains(prompt, "show me") && str_contains(prompt, "data")) {
        return Some(AnalysisType::Summary);
    }
    None
}

/// The date format that a request names.
pub fn extract_date_format(prompt: &str) -> (r: Option<String>)
    ensures
        r.deep_view() == date_format_of(prompt@),
{
    if str_contains(prompt, "YYYY-MM-DD") || str_contains(prompt, "yyyy-mm-dd") {
        Some(String::from_str("YYYY-MM-DD"))
    } else if str_contains(prompt, "DD/MM/YYYY") || str_contains(prompt, "dd/mm/yyyy") {
        Some(String::from_str("DD/MM/YYYY"))
    } else if str_contains(prompt, "MM/DD/YYYY") || str_contains(prompt, "mm/dd/yyyy") {
        Some(String::from_str("MM/DD/YYYY"))
    } else if str_contains(prompt, "ISO") || str_contains(prompt, "iso") {
        Some(String::from_str("YYYY-MM-DD"))
    } else {
        None
    }
}

/// The way of filling missing values that a request names.
pub fn extract_fill_strategy(prompt: &str) -> (r: Option<String>)
    ensures
        r.deep_view() == fill_strategy_of(prompt@),
{
    if str_contains(prompt, "mean") || str_contains(prompt, "average") {
        Some(String::from_str("mean"))
    } else if str_contains(prompt, "median") {
        Some(String::from_str("median"))
    } else if str_contains(prompt, "mode") {
        Some(String::from_str("mode"))
    } else if str_contains(prompt, "zero") {
        Some(String::from_str("zero"))
    } else if str_contains(prompt, "forward") {
        Some(String::from_str("forward"))
    } else {
        None
    }
}

/// The group `group` of the leftmost match of `pattern` in `text`.
pub fn capture_of(pattern: &str, text: &str, group: usize) -> (r: Option<String>)
    ensures
        r.deep_view() == captured(pattern@, text@, group as nat),
{
    match compile(pattern) {
        Some(re) => match capture(&re, text, group) {
            Some(Some(t)) => Some(t),
            _ => None,
        },
        None => None,
    }
}

/// The part of the table that a request is about.
pub fn extract_target_scope(prompt: &str, prompt_lower: &str) -> (scope: TargetScope)
    ensures
        scope.deep_view() == target_scope_of(prompt@, prompt_lower@),
{
    let mut names: Vec<String> = Vec::new();
    if let Some(re) = compile("[\"']([^\"']+)[\"']") {
        let captures = capture_all(&re, prompt, 1);
        let mut i: usize = 0;
        assert(names.deep_view() =~= held(captures.deep_view(), 0));
        while i < captures.len()
            invariant
                i <= captures.len(),
                names.deep_view() == held(captures.deep_view(), i as int),
            decreases captures.len() - i,
        {
            let ghost before = names.deep_view();
            if let Some(name) = &captures[i] {
                names.push(name.clone());
                assert(names.deep_view() =~= before.push(name@));
            }
            i += 1;
        }
    } else {
        assert(names.deep_view() =~= Seq::<Seq<char>>::empty());
    }
    assert(names.deep_view() == quoted_names(prompt@));
    if names.len() > 1 {
        return TargetScope::Columns { names };
    }
    if names.len() == 1 {
        return TargetScope::Column { name: names[0].clone() };
    }
    match capture_of("(?:column|the)\\s+(\\w+)", prompt_lower, 1) {
        Some(name) => TargetScope::Column { name },
        None => TargetScope::AllData,
    }
}

/// The number of decimal places that a request names.
pub fn extract_decimal_places(prompt: &str) -> (r: Option<usize>)
    ensures
        r == decimal_places_of(prompt@),
{
    match capture_of("(\\d+)\\s*decimal", prompt, 1) {
        Some(digits) => parse_usize(digits.as_str()),
        None => None,
    }
}

/// What a request wants replaced, and by what.
pub fn extract_replace_params(prompt: &str) -> (r: Option<(String, String)>)
    ensures
        r.deep_view() == replace_params_of(prompt@),
{
    let from = capture_of(
        "replace\\s+[\"']([^\"']+)[\"']\\s+(?:with|by|to)\\s+[\"']([^\"']+)[\"']",
        prompt,
        1,
    );
    let to = capture_of(
        "replace\\s+[\"']([^\"']+)[\"']\\s+(?:with|by|to)\\s+[\"']([^\"']+)[\"']",
        prompt,
        2,
    );
    match (from, to) {
        (Some(from), Some(to)) => Some((from, to)),
        _ => None,
    }
}

/// The transformation that a request asks for.
pub fn detect_transform_operation(prompt: &str, prompt_lower: &str) -> (r: Option<
    TransformOperation,
>)
    ensures
        r.deep_view() == transform_operation_of(prompt@, prompt_lower@),
{
    if str_contains(prompt_lower, "date") && (str_contains(prompt_lower, "format") || str_contains(
        prompt_lower,
        "convert",
    ) || str_contains(prompt_lower, "standardize")) {
        let target_format = match extract_date_format(prompt) {
            Some(f) => f,
            None => String::from_str("YYYY-MM-DD"),
        };
        return Some(TransformOperation::FormatDates { target_format });
    }
    if (str_contains(prompt_lower, "number") || str_contains(prompt_lower, "decimal"))
        && str_contains(prompt_lower, "format") {
        let decimal_places = match extract_decimal_places(prompt) {
            Some(n) => n,
            None => 2,
        };
        return Some(TransformOperation::FormatNumbers { decimal_places });
    }
    if str_contains(prompt_lower, "remove") && str_contains(prompt_lower, "duplicate") {
        return Some(TransformOperation::RemoveDuplicates);
    }
    if (str_contains(prompt_lower, "fill") || str_contains(prompt_lower, "replace")) && (
    str_contains(prompt_lower, "missing") || str_contains(prompt_lower, "null")) {
        let strategy = match extract_fill_strategy(prompt_lower) {
            Some(s) => s,
            None => String::from_str("mean"),
        };
        return Some(TransformOperation::FillMissing { strategy });
    }
    if str_contains(prompt_lower, "capitalize") {
        return Some(TransformOperation::Capitalize);
    }
    if str_contains(prompt_lower, "lowercase") || str_contains(prompt_lower, "lower case") {
        return Some(TransformOperation::Lowercase);
    }
    if str_contains(prompt_lower, "uppercase") || str_contains(prompt_lower, "upper case") {
        return Some(TransformOperation::Uppercase);
    }
    if str_contains(prompt_lower, "trim") || str_contains(prompt_lower, "remove whitespace") {
        return Some(TransformOperation::Trim);
    }
    if str_contains(prompt_lower, "replace") {
        if let Some((from, to)) = extract_replace_params(prompt) {
            return Some(TransformOperation::Replace { from, to });
        }
    }
    if str_contains(prompt_lower, "normalize") || str_contains(prompt_lower, "standardize") {
        return Some(TransformOperation::Normalize);
    }
    None
}

/// The intent of a request, read from its keywords.
pub fn detect_intent(prompt: &str) -> (r: Result<Intent, IntentError>)
    ensures
        match intent_of(prompt@, lowercase(prompt@)) {
            Some(intent) => r is Ok && r->Ok_0.deep_view() == intent,
            None => r == Err::<Intent, IntentError>(IntentError::NotUnderstood),
        },
{
    let lowered = lower(prompt);
    let prompt_lower = lowered.as_str();
    if let Some(analysis_type) = detect_analysis_type(prompt_lower) {
        let target_scope = extract_target_scope(prompt, prompt_lower);
        return Ok(
            Intent {
                intent_type: IntentType::Analysis { analysis_type },
                target_scope,
                source: IntentSource::Keywords,
            },
        );
    }
    if let Some(operation) = detect_transform_operation(prompt, prompt_lower) {
        let target_scope = extract_target_scope(prompt, prompt_lower);
        return Ok(
            Intent {
                intent_type: IntentType::Transformation { operation },
                target_scope,
                source: IntentSource::Keywords,
            },
        );
    }
    Err(IntentError::NotUnderstood)
}

impl IntentError {
    /// The message of the failure.
    pub fn message(&self) -> (m: String)
        ensures
            m@ == self.message_of(),
    {
        match self {
            IntentError::NotUnderstood => String::from_str(
                "Could not understand the request. Please try rephrasing.",
            ),
            IntentError::MalformedAnswer => String::from_str("Failed to parse LLM response as JSON"),
            IntentError::UnknownIntentType => String::from_str("Unknown intent type"),
            IntentError::UnknownAnalysisType => String::from_str("Unknown analysis type"),
            IntentError::UnknownOperation => String::from_str("Unknown transformation operation"),
        }
    }

    /// The message of the failure.
    pub open spec fn message_of(self) -> Seq<char> {
        match self {
            IntentError::NotUnderstood => "Could not understand the request. Please try rephrasing."@,
            IntentError::MalformedAnswer => "Failed to parse LLM response as JSON"@,
            IntentError::UnknownIntentType => "Unknown intent type"@,
            IntentError::UnknownAnalysisType => "Unknown analysis type"@,
            IntentError::UnknownOperation => "Unknown transformation operation"@,
        }
    }
}

/// What an analysis does, in words.
pub open spec fn analysis_words(analysis_type: AnalysisType) -> Seq<char> {
    match analysis_type {
        AnalysisType::Statistics => "Calculate statistics (mean, median, std dev, etc.)"@,
        AnalysisType::Distribution => "Analyze value distribution and frequency"@,
        AnalysisType::Correlation => "Compute correlations between numeric columns"@,
        AnalysisType::Outliers => "Detect outliers using IQR method"@,
        AnalysisType::Missing => "Analyze missing values"@,
        AnalysisType::Duplicates => "Detect duplicate rows"@,
        AnalysisType::Summary => "Generate dataset summary"@,
    }
}

/// What a transformation does, in words.
pub open spec fn operation_words(operation: TransformOperationView) -> Seq<char> {
    match operation {
        TransformOperationView::Normalize => "Normalize values to 0-1 range"@,
        TransformOperationView::FormatDates { target_format } => "Format dates to "@
            + target_format,
        TransformOperationView::FormatNumbers { decimal_places } => "Format numbers to "@
            + decimal(decimal_places as nat) + " decimal places"@,
        TransformOperationView::RemoveDuplicates => "Remove duplicate rows"@,
        TransformOperationView::FillMissing { strategy } => "Fill missing values using "@ + strategy
            + " strategy"@,
        TransformOperationView::Capitalize => "Capitalize each word"@,
        TransformOperationView::Lowercase => "Convert to lowercase"@,
        TransformOperationView::Uppercase => "Convert to uppercase"@,
        TransformOperationView::Trim => "Remove leading/trailing whitespace"@,
        TransformOperationView::Replace { from, to } => "Replace '"@ + from + "' with '"@ + to
            + "'"@,
    }
}

/// The part of the table in words, after the word `link` (`for` or `in`).
pub open spec fn scope_words(scope: TargetScopeView, link: Seq<char>) -> Seq<char> {
    match scope {
        TargetScopeView::AllData => link + " all data"@,
        TargetScopeView::Column { name } => link + " column '"@ + name + "'"@,
        TargetScopeView::Columns { names } => link + " columns: "@ + joined(names, ", "@),
        TargetScopeView::Selection { rows, columns } => link + " selected data"@,
    }
}

/// An intent in words: what is done, and on which part of the table.
pub open spec fn described(intent: IntentView) -> Seq<char> {
    match intent.intent_type {
        IntentTypeView::Analysis { analysis_type } => analysis_words(analysis_type) + " "@
            + scope_words(intent.target_scope, "for"@),
        IntentTypeView::Transformation { operation } => operation_words(operation) + " "@
            + scope_words(intent.target_scope, "in"@),
    }
}

/// What an analysis does, in words.
pub fn describe_analysis(analysis_type: AnalysisType) -> (words: String)
    ensures
        words@ == analysis_words(analysis_type),
{
    match analysis_type {
        AnalysisType::Statistics => String::from_str(
            "Calculate statistics (mean, median, std dev, etc.)",
        ),
        AnalysisType::Distribution => String::from_str("Analyze value distribution and frequency"),
        AnalysisType::Correlation => String::from_str(
            "Compute correlations between numeric columns",
        ),
        AnalysisType::Outliers => String::from_str("Detect outliers using IQR method"),
        AnalysisType::Missing => String::from_str("Analyze missing values"),
        AnalysisType::Duplicates => String::from_str("Detect duplicate rows"),
        AnalysisType::Summary => String::from_str("Generate dataset summary"),
    }
}

/// What a transformation does, in words.
pub fn describe_operation(operation: &TransformOperation) -> (words: String)
    ensures
        words@ == operation_words(operation.deep_view()),
{
    match operation {
        TransformOperation::Normalize => String::from_str("Normalize values to 0-1 range"),
        TransformOperation::FormatDates { target_format } => {
            let mut words = String::from_str("Format dates to ");
            words.append(target_format.as_str());
            words
        },
        TransformOperation::FormatNumbers { decimal_places } => {
            let mut words = String::from_str("Format numbers to ");
            push_decimal(&mut words, *decimal_places);
            words.append(" decimal places");
            words
        },
        TransformOperation::RemoveDuplicates => String::from_str("Remove duplicate rows"),
        TransformOperation::FillMissing { strategy } => {
            let mut words = String::from_str("Fill missing values using ");
            words.append(strategy.as_str());
            words.append(" strategy");
            words
        },
        TransformOperation::Capitalize => String::from_str("Capitalize each word"),
        TransformOperation::Lowercase => String::from_str("Convert to lowercase"),
        TransformOperation::Uppercase => String::from_str("Convert to uppercase"),
        TransformOperation::Trim => String::from_str("Remove leading/trailing whitespace"),
        TransformOperation::Replace { from, to } => {
            let mut words = String::from_str("Replace '");
            words.append(from.as_str());
            words.append("' with '");
            words.append(to.as_str());
            words.append("'");
            words
        },
    }
}

/// The part of the table in words, after the word `link`.
pub fn describe_scope(scope: &TargetScope, link: &str) -> (words: String)
    ensures
        words@ == scope_words(scope.deep_view(), link@),
{
    let mut words = String::from_str(link);
    match scope {
        TargetScope::AllData => {
            words.append(" all data");
        },
        TargetScope::Column { name } => {
            words.append(" column '");
            words.append(name.as_str());
            words.append("'");
        },
        TargetScope::Columns { names } => {
            words.append(" columns: ");
            words.append(join_strings(names, ", ").as_str());
        },
        TargetScope::Selection { .. } => {
            words.append(" selected data");
        },
    }
    words
}

/// An intent in words.
pub fn generate_intent_description(intent: &Intent) -> (words: String)
    ensures
        words@ == described(intent.deep_view()),
{
    match &intent.intent_type {
        IntentType::Analysis { analysis_type } => {
            let mut words = describe_analysis(*analysis_type);
            words.append(" ");
            words.append(describe_scope(&intent.target_scope, "for").as_str());
            assert(words@ =~= described(intent.deep_view()));
            words
        },
        IntentType::Transformation { operation } => {
            let mut words = describe_operation(operation);
            words.append(" ");
            words.append(describe_scope(&intent.target_scope, "in").as_str());
            assert(words@ =~= described(intent.deep_view()));
            words
        },
    }
}

} // verus!
