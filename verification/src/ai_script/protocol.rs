//! The line protocol between the engine and the child process.
//!
//! The engine writes one JSON object, the table, to the child's standard
//! input. The child answers with lines of JSON objects on its standard
//! output, each with a `type` member. A line of type `progress` is an event
//! and never the answer. Any other line of JSON may be the answer; the last
//! of them is. A line that is no JSON is kept for diagnostics and is neither.

use vstd::prelude::*;
use vstd::string::*;
use crate::ai_script::error::ExecutionError;
use crate::json::{compact_text, json_document, Json, JsonView};
use crate::text::{str_eq};

verus! {

/// A progress event of the child process.
#[derive(Clone, Debug, PartialEq, Eq)]
pub struct ProgressEvent {
    pub processed: u64,
    pub total: u64,
    pub step: String,
}

/// The mathematical value of a [`ProgressEvent`].
pub struct ProgressEventView {
    pub processed: u64,
    pub total: u64,
    pub step: Seq<char>,
}

impl DeepView for ProgressEvent {
    type V = ProgressEventView;

    open spec fn deep_view(&self) -> ProgressEventView {
        ProgressEventView { processed: self.processed, total: self.total, step: self.step@ }
    }
}

/// What a line of the child's output is.
#[derive(Clone, Debug, PartialEq, Eq)]
pub enum OutputLine {
    /// A progress event. It holds the report where the line carries all of
    /// `processed`, `total` and `step`, and nothing where it lacks one.
    Progress(Option<ProgressEvent>),
    /// A line of JSON that is no progress event: it may be the result.
    Candidate,
    /// A line that is no JSON.
    Raw,
}

/// The mathematical value of an [`OutputLine`].
pub enum OutputLineView {
    Progress(Option<ProgressEventView>),
    Candidate,
    Raw,
}

impl DeepView for OutputLine {
    type V = OutputLineView;

    open spec fn deep_view(&self) -> OutputLineView {
        match self {
            OutputLine::Progress(event) => OutputLineView::Progress(event.deep_view()),
            OutputLine::Candidate => OutputLineView::Candidate,
            OutputLine::Raw => OutputLineView::Raw,
        }
    }
}

/// Whether a document is a progress event.
pub open spec fn is_progress(doc: JsonView) -> bool {
    doc.text_of("type"@) == Some("progress"@)
}

/// The report that a progress event carries, where it is complete.
pub open spec fn progress_report(doc: JsonView) -> Option<ProgressEventView> {
    if doc.unsigned_of("processed"@) is Some && doc.unsigned_of("total"@) is Some && doc.text_of(
        "step"@,
    ) is Some {
        Some(
            ProgressEventView {
                processed: doc.unsigned_of("processed"@)->Some_0,
                total: doc.unsigned_of("total"@)->Some_0,
                step: doc.text_of("step"@)->Some_0,
            },
        )
    } else {
        None
    }
}

/// What a document of the child's output is.
pub open spec fn document_kind(doc: JsonView) -> OutputLineView {
    if is_progress(doc) {
        OutputLineView::Progress(progress_report(doc))
    } else {
        OutputLineView::Candidate
    }
}

/// What a line of the child's output is.
pub open spec fn line_kind(line: Seq<char>) -> OutputLineView {
    match json_document(line) {
        Some(doc) => document_kind(doc),
        None => OutputLineView::Raw,
    }
}

/// Whether a line may be the result of the run.
pub open spec fn is_candidate(line: Seq<char>) -> bool {
    line_kind(line) is Candidate
}

/// The index of the last of the first `upto` lines that may be the result.
pub open spec fn last_candidate(lines: Seq<Seq<char>>, upto: int) -> Option<int>
    decreases upto,
{
    if upto <= 0 || upto > lines.len() {
        None
    } else if is_candidate(lines[upto - 1]) {
        Some(upto - 1)
    } else {
        last_candidate(lines, upto - 1)
    }
}

/// The index of the result line among the lines of a run: the last line
/// that is JSON and no progress event.
pub open spec fn result_line(lines: Seq<Seq<char>>) -> Option<int> {
    last_candidate(lines, lines.len() as int)
}

/// The texts of `items` as JSON strings.
pub open spec fn text_array(items: Seq<Seq<char>>) -> JsonView {
    JsonView::Array(Seq::new(items.len(), |i: int| JsonView::Text(items[i])))
}

/// The rows of a table as an array of arrays of JSON strings.
pub open spec fn table_array(rows: Seq<Seq<Seq<char>>>) -> JsonView {
    JsonView::Array(Seq::new(rows.len(), |i: int| text_array(rows[i])))
}

/// The message that hands a table to the child process: an object with the
/// members `headers` and `rows`.
pub open spec fn envelope(headers: Seq<Seq<char>>, rows: Seq<Seq<Seq<char>>>) -> JsonView {
    JsonView::Object(seq![("headers"@, text_array(headers)), ("rows"@, table_array(rows))])
}

/// What a document of the child's output is.
pub fn classify_document(doc: &Json) -> (kind: OutputLine)
    ensures
        kind.deep_view() == document_kind(doc@),
{
    let progress = match doc.text_of("type") {
        Some(t) => str_eq(t, "progress"),
        None => false,
    };
    if !progress {
        return OutputLine::Candidate;
    }
    let processed = doc.unsigned_of("processed");
    let total = doc.unsigned_of("total");
    let step = doc.text_of("step");
    match (processed, total, step) {
        (Some(processed), Some(total), Some(step)) => OutputLine::Progress(
            Some(ProgressEvent { processed, total, step: String::from_str(step) }),
        ),
        _ => OutputLine::Progress(None),
    }
}

/// What a line of the child's output is.
pub fn classify_line(line: &str) -> (kind: OutputLine)
    ensures
        kind.deep_view() == line_kind(line@),
{
    match Json::parse(line) {
        Some(doc) => classify_document(&doc),
        None => OutputLine::Raw,
    }
}

/// The index of the result line among the lines of a run.
pub fn find_result_line(lines: &Vec<String>) -> (found: Option<usize>)
    ensures
        match found {
            Some(i) => i < lines.len() && result_line(lines.deep_view()) == Some(i as int),
            None => result_line(lines.deep_view()) is None,
        },
{
    let mut upto: usize = lines.len();
    while upto > 0
        invariant
            upto <= lines.len(),
            result_line(lines.deep_view()) == last_candidate(lines.deep_view(), upto as int),
        decreases upto,
    {
        let kind = classify_line(lines[upto - 1].as_str());
        if let OutputLine::Candidate = kind {
            return Some(upto - 1);
        }
        upto -= 1;
    }
    None
}

/// The texts of `items` as an array of JSON strings.
pub fn text_items(items: &Vec<String>) -> (doc: Json)
    ensures
        doc@ == text_array(items.deep_view()),
{
    let mut out: Vec<Json> = Vec::new();
    let mut i: usize = 0;
    while i < items.len()
        invariant
            i <= items.len(),
            out.len() == i,
            forall|k: int| 0 <= k < i ==> out[k]@ == JsonView::Text(items[k]@),
        decreases items.len() - i,
    {
        out.push(Json::Text(items[i].clone()));
        i += 1;
    }
    let doc = Json::Array(out);
    assert(doc@->Array_0 =~= text_array(items.deep_view())->Array_0);
    doc
}

/// The message that hands a table to the child process.
pub fn input_envelope(headers: &Vec<String>, rows: &Vec<Vec<String>>) -> (doc: Json)
    ensures
        doc@ == envelope(headers.deep_view(), rows.deep_view()),
{
    let mut out: Vec<Json> = Vec::new();
    let mut i: usize = 0;
    while i < rows.len()
        invariant
            i <= rows.len(),
            out.len() == i,
            forall|k: int| 0 <= k < i ==> out[k]@ == text_array(rows[k].deep_view()),
        decreases rows.len() - i,
    {
        out.push(text_items(&rows[i]));
        i += 1;
    }
    let table = Json::Array(out);
    assert(table@->Array_0 =~= table_array(rows.deep_view())->Array_0);
    let members: Vec<(String, Json)> = vec![
        (String::from_str("headers"), text_items(headers)),
        (String::from_str("rows"), table),
    ];
    let doc = Json::Object(members);
    assert(doc@->Object_0 =~= envelope(headers.deep_view(), rows.deep_view())->Object_0);
    doc
}

/// The text that is written to the child's standard input, on one line
/// without its line ending. Every table can be written so.
pub fn encode_input(headers: &Vec<String>, rows: &Vec<Vec<String>>) -> (r: Result<
    String,
    ExecutionError,
>)
    ensures
        r is Ok,
        Some(r->Ok_0@) == compact_text(envelope(headers.deep_view(), rows.deep_view())),
{
    let doc = input_envelope(headers, rows);
    match doc.to_text() {
        Some(text) => Ok(text),
        None => Err(ExecutionError::InputSerialization),
    }
}

} // verus!
