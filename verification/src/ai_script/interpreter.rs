//! From the last result line of a run to a structured payload.
//!
//! A result line is a JSON object whose `type` member names the kind of
//! result. Decoding is lenient in the way the scripts need: an entry of
//! `changes`, `unified_changes` or `preview` that cannot be read is left
//! out, the others are kept in their order. A transformation may bring its
//! edits in the flat form (`changes`), in the unified form
//! (`unified_changes`) or in both; a form that the line does not bring as an
//! array is absent from the payload.

use vstd::prelude::*;
use vstd::string::*;
use crate::ai_script::error::ExecutionError;
use crate::ai_script::models::{
    Change, ChangePreview, ChangePreviewView, ChangeView, ColumnPosition, DataChange,
    DataChangeView, ResultPayload, ResultPayloadView, RowPosition,
};
use crate::json::{json_document, pretty_text, Json, JsonView};
use crate::text::str_eq;

verus! {

/// An index read from a JSON number, where the number is an unsigned
/// integer that fits the machine's index type.
pub open spec fn index_of(n: Option<u64>) -> Option<usize> {
    match n {
        Some(v) => if v <= usize::MAX {
            Some(v as usize)
        } else {
            None
        },
        None => None,
    }
}

/// What `decode` makes of the first `upto` items, in their order, without
/// the items that it rejects.
pub open spec fn collect_upto<T>(
    items: Seq<JsonView>,
    decode: spec_fn(JsonView) -> Option<T>,
    upto: int,
) -> Seq<T>
    decreases upto,
{
    if upto <= 0 {
        Seq::empty()
    } else {
        let before = collect_upto(items, decode, upto - 1);
        if upto <= items.len() && decode(items[upto - 1]) is Some {
            before.push(decode(items[upto - 1])->Some_0)
        } else {
            before
        }
    }
}

/// What `decode` makes of the items of the array member `key`; nothing where
/// there is no such array.
pub open spec fn collect_member<T>(
    doc: JsonView,
    key: Seq<char>,
    decode: spec_fn(JsonView) -> Option<T>,
) -> Seq<T> {
    match doc.get(key) {
        Some(JsonView::Array(items)) => collect_upto(items, decode, items.len() as int),
        _ => Seq::empty(),
    }
}

/// The cell edit that an entry of `changes` stands for.
pub open spec fn decoded_change(item: JsonView) -> Option<DataChangeView> {
    if index_of(item.unsigned_of("row"@)) is Some && index_of(item.unsigned_of("col"@)) is Some
        && item.text_of("old_value"@) is Some && item.text_of("new_value"@) is Some {
        Some(
            DataChangeView {
                row_index: index_of(item.unsigned_of("row"@))->Some_0,
                column_index: index_of(item.unsigned_of("col"@))->Some_0,
                old_value: item.text_of("old_value"@)->Some_0,
                new_value: item.text_of("new_value"@)->Some_0,
            },
        )
    } else {
        None
    }
}

/// The preview that an entry of `preview` stands for.
pub open spec fn decoded_preview(item: JsonView) -> Option<ChangePreviewView> {
    if index_of(item.unsigned_of("row"@)) is Some && index_of(item.unsigned_of("col"@)) is Some
        && item.text_of("column_name"@) is Some && item.text_of("old_value"@) is Some
        && item.text_of("new_value"@) is Some {
        Some(
            ChangePreviewView {
                row_index: index_of(item.unsigned_of("row"@))->Some_0,
                column_index: index_of(item.unsigned_of("col"@))->Some_0,
                column_name: item.text_of("column_name"@)->Some_0,
                old_value: item.text_of("old_value"@)->Some_0,
                new_value: item.text_of("new_value"@)->Some_0,
            },
        )
    } else {
        None
    }
}

/// What `decode` makes of the items of the array member `key`, where there
/// is such an array.
pub open spec fn collect_optional<T>(
    doc: JsonView,
    key: Seq<char>,
    decode: spec_fn(JsonView) -> Option<T>,
) -> Option<Seq<T>> {
    match doc.get(key) {
        Some(JsonView::Array(items)) => Some(collect_upto(items, decode, items.len() as int)),
        _ => None,
    }
}

/// Whether the member `position` says `before` (true) or `after` (false).
pub open spec fn placed_before(item: JsonView) -> Option<bool> {
    let side = item.text_of("position"@);
    if side == Some("before"@) {
        Some(true)
    } else if side == Some("after"@) {
        Some(false)
    } else {
        None
    }
}

/// A string member that may be missing or null. The outer value is nothing
/// where the member is there and is neither a string nor null.
pub open spec fn optional_text(item: JsonView, key: Seq<char>) -> Option<Option<Seq<char>>> {
    match item.get(key) {
        None => Some(None),
        Some(JsonView::Null) => Some(None),
        Some(JsonView::Text(s)) => Some(Some(s)),
        Some(_) => None,
    }
}

/// Whether every item is a string.
pub open spec fn all_text(items: Seq<JsonView>) -> bool {
    forall|i: int| 0 <= i < items.len() ==> (#[trigger] items[i]) is Text
}

/// The strings of items that are all strings.
pub open spec fn texts(items: Seq<JsonView>) -> Seq<Seq<char>> {
    Seq::new(items.len(), |i: int| items[i]->Text_0)
}

/// An array of strings that may be missing or null. The outer value is
/// nothing where the member is there and is neither such an array nor null.
pub open spec fn optional_texts(item: JsonView, key: Seq<char>) -> Option<Option<Seq<Seq<char>>>> {
    match item.get(key) {
        None => Some(None),
        Some(JsonView::Null) => Some(None),
        Some(JsonView::Array(items)) => if all_text(items) {
            Some(Some(texts(items)))
        } else {
            None
        },
        Some(_) => None,
    }
}

/// The edit that an entry of `unified_changes` stands for.
pub open spec fn decoded_unified(item: JsonView) -> Option<ChangeView> {
    let kind = item.text_of("type"@);
    let row = index_of(item.unsigned_of("row_index"@));
    let column = index_of(item.unsigned_of("column_index"@));
    if kind == Some("cell"@) {
        if row is Some && column is Some && item.text_of("old_value"@) is Some && item.text_of(
            "new_value"@,
        ) is Some {
            Some(
                ChangeView::Cell {
                    row_index: row->Some_0,
                    column_index: column->Some_0,
                    old_value: item.text_of("old_value"@)->Some_0,
                    new_value: item.text_of("new_value"@)->Some_0,
                },
            )
        } else {
            None
        }
    } else if kind == Some("add_column"@) {
        if column is Some && item.text_of("column_name"@) is Some && placed_before(item) is Some
            && optional_text(item, "default_value"@) is Some {
            Some(
                ChangeView::AddColumn {
                    column_index: column->Some_0,
                    column_name: item.text_of("column_name"@)->Some_0,
                    position: if placed_before(item)->Some_0 {
                        ColumnPosition::Before
                    } else {
                        ColumnPosition::After
                    },
                    default_value: optional_text(item, "default_value"@)->Some_0,
                },
            )
        } else {
            None
        }
    } else if kind == Some("remove_column"@) {
        if column is Some && item.text_of("column_name"@) is Some {
            Some(
                ChangeView::RemoveColumn {
                    column_index: column->Some_0,
                    column_name: item.text_of("column_name"@)->Some_0,
                },
            )
        } else {
            None
        }
    } else if kind == Some("rename_column"@) {
        if column is Some && item.text_of("old_name"@) is Some && item.text_of("new_name"@) is Some {
            Some(
                ChangeView::RenameColumn {
                    column_index: column->Some_0,
                    old_name: item.text_of("old_name"@)->Some_0,
                    new_name: item.text_of("new_name"@)->Some_0,
                },
            )
        } else {
            None
        }
    } else if kind == Some("add_row"@) {
        if row is Some && placed_before(item) is Some && optional_texts(item, "row_data"@) is Some {
            Some(
                ChangeView::AddRow {
                    row_index: row->Some_0,
                    position: if placed_before(item)->Some_0 {
                        RowPosition::Before
                    } else {
                        RowPosition::After
                    },
                    row_data: optional_texts(item, "row_data"@)->Some_0,
                },
            )
        } else {
            None
        }
    } else if kind == Some("remove_row"@) {
        if row is Some {
            Some(ChangeView::RemoveRow { row_index: row->Some_0 })
        } else {
            None
        }
    } else {
        None
    }
}

/// The summary of an analysis: a string as it is, an object or an array as
/// indented JSON, any other value as JSON writes it.
pub open spec fn summary_text(doc: JsonView) -> Seq<char> {
    match doc.get("summary"@) {
        Some(JsonView::Text(s)) => s,
        Some(JsonView::Object(members)) => match pretty_text(JsonView::Object(members)) {
            Some(t) => t,
            None => "Analysis completed"@,
        },
        Some(JsonView::Array(items)) => match pretty_text(JsonView::Array(items)) {
            Some(t) => t,
            None => "Analysis completed"@,
        },
        Some(JsonView::Number { unsigned, text }) => text,
        Some(JsonView::Bool(b)) => if b {
            "true"@
        } else {
            "false"@
        },
        Some(JsonView::Null) => "null"@,
        None => "Analysis completed"@,
    }
}

/// The details of an analysis: the member `details`, or an empty object.
pub open spec fn details_of(doc: JsonView) -> JsonView {
    match doc.get("details"@) {
        Some(v) => v,
        None => JsonView::Object(Seq::empty()),
    }
}

/// The message of an error result.
pub open spec fn error_text(doc: JsonView) -> Seq<char> {
    match doc.text_of("message"@) {
        Some(m) => m,
        None => "Unknown error"@,
    }
}

/// The payload that a result document stands for; nothing where its `type`
/// is not one of `analysis`, `transformation` and `error`.
pub open spec fn decoded_payload(doc: JsonView) -> Option<ResultPayloadView> {
    let kind = doc.text_of("type"@);
    if kind == Some("analysis"@) {
        Some(ResultPayloadView::Analysis { summary: summary_text(doc), details: details_of(doc) })
    } else if kind == Some("transformation"@) {
        Some(
            ResultPayloadView::Transformation {
                changes: collect_optional(doc, "changes"@, |item: JsonView| decoded_change(item)),
                unified_changes: collect_optional(
                    doc,
                    "unified_changes"@,
                    |item: JsonView| decoded_unified(item),
                ),
                preview: collect_member(doc, "preview"@, |item: JsonView| decoded_preview(item)),
            },
        )
    } else if kind == Some("error"@) {
        Some(ResultPayloadView::Error { message: error_text(doc) })
    } else {
        None
    }
}

/// What [`parse_result`] makes of a result line.
pub open spec fn parsed_result(line: Seq<char>) -> Result<ResultPayloadView, ExecutionError> {
    match json_document(line) {
        None => Err(ExecutionError::MalformedResult),
        Some(doc) => match decoded_payload(doc) {
            Some(payload) => Ok(payload),
            None => Err(ExecutionError::UnknownResultType),
        },
    }
}

/// The view of the outcome of a decoding.
pub open spec fn outcome_view(r: Result<ResultPayload, ExecutionError>) -> Result<
    ResultPayloadView,
    ExecutionError,
> {
    match r {
        Ok(p) => Ok(p.deep_view()),
        Err(e) => Err(e),
    }
}

/// The index held by the member `key`.
pub fn index_member(item: &Json, key: &str) -> (r: Option<usize>)
    ensures
        r == index_of(item@.unsigned_of(key@)),
{
    match item.unsigned_of(key) {
        Some(v) => if v <= usize::MAX as u64 {
            Some(v as usize)
        } else {
            None
        },
        None => None,
    }
}

/// The cell edit that an entry of `changes` stands for.
pub fn decode_change(item: &Json) -> (r: Option<DataChange>)
    ensures
        r.deep_view() == decoded_change(item@),
{
    let row = index_member(item, "row");
    let col = index_member(item, "col");
    let old_value = item.text_of("old_value");
    let new_value = item.text_of("new_value");
    match (row, col, old_value, new_value) {
        (Some(row_index), Some(column_index), Some(old), Some(new)) => Some(
            DataChange {
                row_index,
                column_index,
                old_value: String::from_str(old),
                new_value: String::from_str(new),
            },
        ),
        _ => None,
    }
}

/// The preview that an entry of `preview` stands for.
pub fn decode_preview(item: &Json) -> (r: Option<ChangePreview>)
    ensures
        r.deep_view() == decoded_preview(item@),
{
    let row = index_member(item, "row");
    let col = index_member(item, "col");
    let name = item.text_of("column_name");
    let old_value = item.text_of("old_value");
    let new_value = item.text_of("new_value");
    match (row, col, name, old_value, new_value) {
        (Some(row_index), Some(column_index), Some(name), Some(old), Some(new)) => Some(
            ChangePreview {
                row_index,
                column_index,
                column_name: String::from_str(name),
                old_value: String::from_str(old),
                new_value: String::from_str(new),
            },
        ),
        _ => None,
    }
}

/// The cell edits of the member `changes`, where it is an array.
pub fn decode_changes(doc: &Json) -> (r: Option<Vec<DataChange>>)
    ensures
        r.deep_view() == collect_optional(
            doc@,
            "changes"@,
            |item: JsonView| decoded_change(item),
        ),
{
    let ghost decode = |item: JsonView| decoded_change(item);
    if let Some(member) = doc.get("changes") {
        if let Some(items) = member.as_array() {
            let mut out: Vec<DataChange> = Vec::new();
            let mut i: usize = 0;
            assert(out.deep_view() =~= collect_upto(items.deep_view(), decode, 0));
            while i < items.len()
                invariant
                    i <= items.len(),
                    decode == (|item: JsonView| decoded_change(item)),
                    out.deep_view() == collect_upto(items.deep_view(), decode, i as int),
                decreases items.len() - i,
            {
                let ghost before = out.deep_view();
                if let Some(change) = decode_change(&items[i]) {
                    out.push(change);
                    assert(out.deep_view() =~= before.push(change.deep_view()));
                }
                i += 1;
            }
            return Some(out);
        }
    }
    None
}

/// Whether the member `position` says `before` or `after`.
pub fn decode_placement(item: &Json) -> (r: Option<bool>)
    ensures
        r == placed_before(item@),
{
    match item.text_of("position") {
        Some(side) => if str_eq(side, "before") {
            Some(true)
        } else if str_eq(side, "after") {
            Some(false)
        } else {
            None
        },
        None => None,
    }
}

/// A string member that may be missing or null.
pub fn decode_optional_text(item: &Json, key: &str) -> (r: Option<Option<String>>)
    ensures
        r.deep_view() == optional_text(item@, key@),
{
    match item.get(key) {
        None => Some(None),
        Some(Json::Null) => Some(None),
        Some(Json::Text(s)) => Some(Some(s.clone())),
        Some(_) => None,
    }
}

/// An array of strings that may be missing or null.
pub fn decode_optional_texts(item: &Json, key: &str) -> (r: Option<Option<Vec<String>>>)
    ensures
        r.deep_view() == optional_texts(item@, key@),
{
    match item.get(key) {
        None => Some(None),
        Some(Json::Null) => Some(None),
        Some(Json::Array(items)) => {
            let ghost model = Json::Array(*items)@->Array_0;
            assert(model.len() == items.len());
            assert(forall|k: int| 0 <= k < items.len() ==> model[k] == items[k]@);
            assert(item@.get(key@) == Some(JsonView::Array(model)));
            let mut out: Vec<String> = Vec::new();
            let mut i: usize = 0;
            while i < items.len()
                invariant
                    i <= items.len(),
                    item@.get(key@) == Some(JsonView::Array(model)),
                    model.len() == items.len(),
                    forall|k: int| 0 <= k < items.len() ==> model[k] == items[k]@,
                    out.len() == i,
                    forall|k: int| 0 <= k < i ==> (#[trigger] model[k]) is Text,
                    forall|k: int| 0 <= k < i ==> (#[trigger] out[k])@ == model[k]->Text_0,
                decreases items.len() - i,
            {
                match &items[i] {
                    Json::Text(s) => {
                        out.push(s.clone());
                    },
                    _ => {
                        assert(!(model[i as int] is Text));
                        return None;
                    },
                }
                i += 1;
            }
            assert(out.deep_view() =~= texts(model));
            Some(Some(out))
        },
        Some(_) => None,
    }
}

/// The edit that an entry of `unified_changes` stands for.
pub fn decode_unified(item: &Json) -> (r: Option<Change>)
    ensures
        r.deep_view() == decoded_unified(item@),
{
    let kind = match item.text_of("type") {
        Some(kind) => kind,
        None => {
            return None;
        },
    };
    let row = index_member(item, "row_index");
    let column = index_member(item, "column_index");
    if str_eq(kind, "cell") {
        match (row, column, item.text_of("old_value"), item.text_of("new_value")) {
            (Some(row_index), Some(column_index), Some(old), Some(new)) => Some(
                Change::Cell {
                    row_index,
                    column_index,
                    old_value: String::from_str(old),
                    new_value: String::from_str(new),
                },
            ),
            _ => None,
        }
    } else if str_eq(kind, "add_column") {
        match (
            column,
            item.text_of("column_name"),
            decode_placement(item),
            decode_optional_text(item, "default_value"),
        ) {
            (Some(column_index), Some(name), Some(before), Some(default_value)) => Some(
                Change::AddColumn {
                    column_index,
                    column_name: String::from_str(name),
                    position: if before {
                        ColumnPosition::Before
                    } else {
                        ColumnPosition::After
                    },
                    default_value,
                },
            ),
            _ => None,
        }
    } else if str_eq(kind, "remove_column") {
        match (column, item.text_of("column_name")) {
            (Some(column_index), Some(name)) => Some(
                Change::RemoveColumn { column_index, column_name: String::from_str(name) },
            ),
            _ => None,
        }
    } else if str_eq(kind, "rename_column") {
        match (column, item.text_of("old_name"), item.text_of("new_name")) {
            (Some(column_index), Some(old), Some(new)) => Some(
                Change::RenameColumn {
                    column_index,
                    old_name: String::from_str(old),
                    new_name: String::from_str(new),
                },
            ),
            _ => None,
        }
    } else if str_eq(kind, "add_row") {
        match (row, decode_placement(item), decode_optional_texts(item, "row_data")) {
            (Some(row_index), Some(before), Some(row_data)) => Some(
                Change::AddRow {
                    row_index,
                    position: if before {
                        RowPosition::Before
                    } else {
                        RowPosition::After
                    },
                    row_data,
                },
            ),
            _ => None,
        }
    } else if str_eq(kind, "remove_row") {
        match row {
            Some(row_index) => Some(Change::RemoveRow { row_index }),
            None => None,
        }
    } else {
        None
    }
}

/// The edits of the member `unified_changes`, where it is an array.
pub fn decode_unified_changes(doc: &Json) -> (r: Option<Vec<Change>>)
    ensures
        r.deep_view() == collect_optional(
            doc@,
            "unified_changes"@,
            |item: JsonView| decoded_unified(item),
        ),
{
    let ghost decode = |item: JsonView| decoded_unified(item);
    if let Some(member) = doc.get("unified_changes") {
        if let Some(items) = member.as_array() {
            let mut out: Vec<Change> = Vec::new();
            let mut i: usize = 0;
            assert(out.deep_view() =~= collect_upto(items.deep_view(), decode, 0));
            while i < items.len()
                invariant
                    i <= items.len(),
                    decode == (|item: JsonView| decoded_unified(item)),
                    out.deep_view() == collect_upto(items.deep_view(), decode, i as int),
                decreases items.len() - i,
            {
                let ghost before = out.deep_view();
                if let Some(change) = decode_unified(&items[i]) {
                    out.push(change);
                    assert(out.deep_view() =~= before.push(change.deep_view()));
                }
                i += 1;
            }
            return Some(out);
        }
    }
    None
}

/// The previews of the member `preview`.
pub fn decode_previews(doc: &Json) -> (r: Vec<ChangePreview>)
    ensures
        r.deep_view() == collect_member(doc@, "preview"@, |item: JsonView| decoded_preview(item)),
{
    let mut out: Vec<ChangePreview> = Vec::new();
    let ghost decode = |item: JsonView| decoded_preview(item);
    if let Some(member) = doc.get("preview") {
        if let Some(items) = member.as_array() {
            let mut i: usize = 0;
            assert(out.deep_view() =~= collect_upto(items.deep_view(), decode, 0));
            while i < items.len()
                invariant
                    i <= items.len(),
                    decode == (|item: JsonView| decoded_preview(item)),
                    out.deep_view() == collect_upto(items.deep_view(), decode, i as int),
                decreases items.len() - i,
            {
                let ghost before = out.deep_view();
                if let Some(preview) = decode_preview(&items[i]) {
                    out.push(preview);
                    assert(out.deep_view() =~= before.push(preview.deep_view()));
                }
                i += 1;
            }
            return out;
        }
    }
    assert(out.deep_view() =~= Seq::empty());
    out
}

/// The summary of an analysis.
pub fn decode_summary(doc: &Json) -> (summary: String)
    ensures
        summary@ == summary_text(doc@),
{
    match doc.get("summary") {
        Some(Json::Text(s)) => s.clone(),
        Some(Json::Number(n)) => n.text.clone(),
        Some(Json::Bool(b)) => if *b {
            String::from_str("true")
        } else {
            String::from_str("false")
        },
        Some(Json::Null) => String::from_str("null"),
        Some(value) => match value.to_pretty_text() {
            Some(t) => t,
            None => String::from_str("Analysis completed"),
        },
        None => String::from_str("Analysis completed"),
    }
}

/// Decodes a result document into its payload.
pub fn decode_payload(doc: &Json) -> (r: Result<ResultPayload, ExecutionError>)
    ensures
        match decoded_payload(doc@) {
            Some(payload) => outcome_view(r) == Ok::<ResultPayloadView, ExecutionError>(payload),
            None => r == Err::<ResultPayload, ExecutionError>(ExecutionError::UnknownResultType),
        },
{
    match doc.text_of("type") {
        Some(kind) => {
            if str_eq(kind, "analysis") {
                let summary = decode_summary(doc);
                let details = match doc.get("details") {
                    Some(v) => v.duplicate(),
                    None => Json::empty_object(),
                };
                Ok(ResultPayload::Analysis { summary, details })
            } else if str_eq(kind, "transformation") {
                let changes = decode_changes(doc);
                let unified_changes = decode_unified_changes(doc);
                let preview = decode_previews(doc);
                Ok(ResultPayload::Transformation { changes, unified_changes, preview })
            } else if str_eq(kind, "error") {
                let message = match doc.text_of("message") {
                    Some(m) => String::from_str(m),
                    None => String::from_str("Unknown error"),
                };
                Ok(ResultPayload::Error { message })
            } else {
                Err(ExecutionError::UnknownResultType)
            }
        },
        None => Err(ExecutionError::UnknownResultType),
    }
}

/// Reads a result line and decodes it into its payload.
pub fn parse_result(line: &str) -> (r: Result<ResultPayload, ExecutionError>)
    ensures
        outcome_view(r) == parsed_result(line@),
{
    match Json::parse(line) {
        Some(doc) => decode_payload(&doc),
        None => Err(ExecutionError::MalformedResult),
    }
}

} // verus!
