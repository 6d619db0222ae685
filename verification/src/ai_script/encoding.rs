//! Writing a payload as the result document that decodes to it.
//!
//! The document has one shape for each kind of payload. A form of the edits
//! that a transformation does not bring is written as `null`, so that a
//! payload with only the flat form, one with only the unified form and one
//! with both are three different documents, and each is read back as what
//! it was.

use vstd::prelude::*;
use vstd::string::*;
use crate::ai_script::interpreter::{
    all_text, collect_optional, collect_member, collect_upto, decoded_change, decoded_payload,
    decoded_preview, decoded_unified, index_of, texts,
};
use crate::ai_script::models::{
    Change, ChangePreview, ChangePreviewView, ChangeView, ColumnPosition, DataChange,
    DataChangeView, ResultPayload, ResultPayloadView, RowPosition,
};
use crate::ai_script::protocol::{text_array, text_items};
use crate::json::{find_member, Json, JsonNumber, JsonView};
use crate::text::{decimal, usize_to_string};

verus! {

/// An index as a JSON number.
pub open spec fn number_doc(n: usize) -> JsonView {
    JsonView::Number { unsigned: Some(n as u64), text: decimal(n as nat) }
}

/// A string that may be absent, as a JSON string or `null`.
pub open spec fn optional_text_doc(text: Option<Seq<char>>) -> JsonView {
    match text {
        Some(s) => JsonView::Text(s),
        None => JsonView::Null,
    }
}

/// Strings that may be absent, as an array of JSON strings or `null`.
pub open spec fn optional_texts_doc(items: Option<Seq<Seq<char>>>) -> JsonView {
    match items {
        Some(s) => text_array(s),
        None => JsonView::Null,
    }
}

/// The name of a side.
pub open spec fn side_doc(before: bool) -> JsonView {
    if before {
        JsonView::Text("before"@)
    } else {
        JsonView::Text("after"@)
    }
}

/// A cell edit in the flat form, as an entry of `changes`.
pub open spec fn encoded_change(c: DataChangeView) -> JsonView {
    JsonView::Object(
        seq![
            ("row"@, number_doc(c.row_index)),
            ("col"@, number_doc(c.column_index)),
            ("old_value"@, JsonView::Text(c.old_value)),
            ("new_value"@, JsonView::Text(c.new_value)),
        ],
    )
}

/// A preview, as an entry of `preview`.
pub open spec fn encoded_preview(p: ChangePreviewView) -> JsonView {
    JsonView::Object(
        seq![
            ("row"@, number_doc(p.row_index)),
            ("col"@, number_doc(p.column_index)),
            ("column_name"@, JsonView::Text(p.column_name)),
            ("old_value"@, JsonView::Text(p.old_value)),
            ("new_value"@, JsonView::Text(p.new_value)),
        ],
    )
}

/// An edit in the unified form, as an entry of `unified_changes`.
pub open spec fn encoded_unified(c: ChangeView) -> JsonView {
    match c {
        ChangeView::Cell { row_index, column_index, old_value, new_value } => JsonView::Object(
            seq![
                ("type"@, JsonView::Text("cell"@)),
                ("row_index"@, number_doc(row_index)),
                ("column_index"@, number_doc(column_index)),
                ("old_value"@, JsonView::Text(old_value)),
                ("new_value"@, JsonView::Text(new_value)),
            ],
        ),
        ChangeView::AddColumn {
            column_index,
            column_name,
            position,
            default_value,
        } => JsonView::Object(
            seq![
                ("type"@, JsonView::Text("add_column"@)),
                ("column_index"@, number_doc(column_index)),
                ("column_name"@, JsonView::Text(column_name)),
                ("position"@, side_doc(position == ColumnPosition::Before)),
                ("default_value"@, optional_text_doc(default_value)),
            ],
        ),
        ChangeView::RemoveColumn { column_index, column_name } => JsonView::Object(
            seq![
                ("type"@, JsonView::Text("remove_column"@)),
                ("column_index"@, number_doc(column_index)),
                ("column_name"@, JsonView::Text(column_name)),
            ],
        ),
        ChangeView::RenameColumn { column_index, old_name, new_name } => JsonView::Object(
            seq![
                ("type"@, JsonView::Text("rename_column"@)),
                ("column_index"@, number_doc(column_index)),
                ("old_name"@, JsonView::Text(old_name)),
                ("new_name"@, JsonView::Text(new_name)),
            ],
        ),
        ChangeView::AddRow { row_index, position, row_data } => JsonView::Object(
            seq![
                ("type"@, JsonView::Text("add_row"@)),
                ("row_index"@, number_doc(row_index)),
                ("position"@, side_doc(position == RowPosition::Before)),
                ("row_data"@, optional_texts_doc(row_data)),
            ],
        ),
        ChangeView::RemoveRow { row_index } => JsonView::Object(
            seq![("type"@, JsonView::Text("remove_row"@)), ("row_index"@, number_doc(row_index))],
        ),
    }
}

/// The documents of `items`, each written by `encode`.
pub open spec fn encoded_items<T>(items: Seq<T>, encode: spec_fn(T) -> JsonView) -> Seq<JsonView> {
    Seq::new(items.len(), |i: int| encode(items[i]))
}

/// A list that may be absent, as an array or `null`.
pub open spec fn optional_array<T>(items: Option<Seq<T>>, encode: spec_fn(T) -> JsonView) -> JsonView {
    match items {
        Some(s) => JsonView::Array(encoded_items(s, encode)),
        None => JsonView::Null,
    }
}

/// The result document of a payload.
pub open spec fn encoded_payload(p: ResultPayloadView) -> JsonView {
    match p {
        ResultPayloadView::Analysis { summary, details } => JsonView::Object(
            seq![
                ("type"@, JsonView::Text("analysis"@)),
                ("summary"@, JsonView::Text(summary)),
                ("details"@, details),
            ],
        ),
        ResultPayloadView::Transformation { changes, unified_changes, preview } => JsonView::Object(
            seq![
                ("type"@, JsonView::Text("transformation"@)),
                ("changes"@, optional_array(changes, |c: DataChangeView| encoded_change(c))),
                (
                    "unified_changes"@,
                    optional_array(unified_changes, |c: ChangeView| encoded_unified(c)),
                ),
                (
                    "preview"@,
                    JsonView::Array(
                        encoded_items(preview, |p: ChangePreviewView| encoded_preview(p)),
                    ),
                ),
            ],
        ),
        ResultPayloadView::Error { message } => JsonView::Object(
            seq![("type"@, JsonView::Text("error"@)), ("message"@, JsonView::Text(message))],
        ),
    }
}

/// The names of the members of an entry of `changes` or `preview` are different from each other.
pub proof fn lemma_entry_names_differ()
    ensures
        "row"@ != "col"@,
        "row"@ != "column_name"@,
        "row"@ != "old_value"@,
        "row"@ != "new_value"@,
        "col"@ != "column_name"@,
        "col"@ != "old_value"@,
        "col"@ != "new_value"@,
        "column_name"@ != "old_value"@,
        "column_name"@ != "new_value"@,
        "old_value"@ != "new_value"@,
{
    reveal_strlit("row");
    reveal_strlit("col");
    reveal_strlit("column_name");
    reveal_strlit("old_value");
    reveal_strlit("new_value");
    assert("row"@[0] != "col"@[0]);
    assert("row"@.len() != "column_name"@.len());
    assert("row"@.len() != "old_value"@.len());
    assert("row"@.len() != "new_value"@.len());
    assert("col"@.len() != "column_name"@.len());
    assert("col"@.len() != "old_value"@.len());
    assert("col"@.len() != "new_value"@.len());
    assert("column_name"@.len() != "old_value"@.len());
    assert("column_name"@.len() != "new_value"@.len());
    assert("old_value"@[0] != "new_value"@[0]);
}

/// The names of the members of an entry of `unified_changes` are different from each other.
pub proof fn lemma_edit_names_differ()
    ensures
        "type"@ != "row_index"@,
        "type"@ != "column_index"@,
        "type"@ != "old_value"@,
        "type"@ != "new_value"@,
        "type"@ != "column_name"@,
        "type"@ != "position"@,
        "type"@ != "default_value"@,
        "type"@ != "old_name"@,
        "type"@ != "new_name"@,
        "type"@ != "row_data"@,
        "row_index"@ != "column_index"@,
        "row_index"@ != "old_value"@,
        "row_index"@ != "new_value"@,
        "row_index"@ != "column_name"@,
        "row_index"@ != "position"@,
        "row_index"@ != "default_value"@,
        "row_index"@ != "old_name"@,
        "row_index"@ != "new_name"@,
        "row_index"@ != "row_data"@,
        "column_index"@ != "old_value"@,
        "column_index"@ != "new_value"@,
        "column_index"@ != "column_name"@,
        "column_index"@ != "position"@,
        "column_index"@ != "default_value"@,
        "column_index"@ != "old_name"@,
        "column_index"@ != "new_name"@,
        "column_index"@ != "row_data"@,
        "old_value"@ != "new_value"@,
        "old_value"@ != "column_name"@,
        "old_value"@ != "position"@,
        "old_value"@ != "default_value"@,
        "old_value"@ != "old_name"@,
        "old_value"@ != "new_name"@,
        "old_value"@ != "row_data"@,
        "new_value"@ != "column_name"@,
        "new_value"@ != "position"@,
        "new_value"@ != "default_value"@,
        "new_value"@ != "old_name"@,
        "new_value"@ != "new_name"@,
        "new_value"@ != "row_data"@,
        "column_name"@ != "position"@,
        "column_name"@ != "default_value"@,
        "column_name"@ != "old_name"@,
        "column_name"@ != "new_name"@,
        "column_name"@ != "row_data"@,
        "position"@ != "default_value"@,
        "position"@ != "old_name"@,
        "position"@ != "new_name"@,
        "position"@ != "row_data"@,
        "default_value"@ != "old_name"@,
        "default_value"@ != "new_name"@,
        "default_value"@ != "row_data"@,
        "old_name"@ != "new_name"@,
        "old_name"@ != "row_data"@,
        "new_name"@ != "row_data"@,
{
    reveal_strlit("type");
    reveal_strlit("row_index");
    reveal_strlit("column_index");
    reveal_strlit("old_value");
    reveal_strlit("new_value");
    reveal_strlit("column_name");
    reveal_strlit("position");
    reveal_strlit("default_value");
    reveal_strlit("old_name");
    reveal_strlit("new_name");
    reveal_strlit("row_data");
    assert("type"@.len() != "row_index"@.len());
    assert("type"@.len() != "column_index"@.len());
    assert("type"@.len() != "old_value"@.len());
    assert("type"@.len() != "new_value"@.len());
    assert("type"@.len() != "column_name"@.len());
    assert("type"@.len() != "position"@.len());
    assert("type"@.len() != "default_value"@.len());
    assert("type"@.len() != "old_name"@.len());
    assert("type"@.len() != "new_name"@.len());
    assert("type"@.len() != "row_data"@.len());
    assert("row_index"@.len() != "column_index"@.len());
    assert("row_index"@[0] != "old_value"@[0]);
    assert("row_index"@[0] != "new_value"@[0]);
    assert("row_index"@.len() != "column_name"@.len());
    assert("row_index"@.len() != "position"@.len());
    assert("row_index"@.len() != "default_value"@.len());
    assert("row_index"@.len() != "old_name"@.len());
    assert("row_index"@.len() != "new_name"@.len());
    assert("row_index"@.len() != "row_data"@.len());
    assert("column_index"@.len() != "old_value"@.len());
    assert("column_index"@.len() != "new_value"@.len());
    assert("column_index"@.len() != "column_name"@.len());
    assert("column_index"@.len() != "position"@.len());
    assert("column_index"@.len() != "default_value"@.len());
    assert("column_index"@.len() != "old_name"@.len());
    assert("column_index"@.len() != "new_name"@.len());
    assert("column_index"@.len() != "row_data"@.len());
    assert("old_value"@[0] != "new_value"@[0]);
    assert("old_value"@.len() != "column_name"@.len());
    assert("old_value"@.len() != "position"@.len());
    assert("old_value"@.len() != "default_value"@.len());
    assert("old_value"@.len() != "old_name"@.len());
    assert("old_value"@.len() != "new_name"@.len());
    assert("old_value"@.len() != "row_data"@.len());
    assert("new_value"@.len() != "column_name"@.len());
    assert("new_value"@.len() != "position"@.len());
    assert("new_value"@.len() != "default_value"@.len());
    assert("new_value"@.len() != "old_name"@.len());
    assert("new_value"@.len() != "new_name"@.len());
    assert("new_value"@.len() != "row_data"@.len());
    assert("column_name"@.len() != "position"@.len());
    assert("column_name"@.len() != "default_value"@.len());
    assert("column_name"@.len() != "old_name"@.len());
    assert("column_name"@.len() != "new_name"@.len());
    assert("column_name"@.len() != "row_data"@.len());
    assert("position"@.len() != "default_value"@.len());
    assert("position"@[0] != "old_name"@[0]);
    assert("position"@[0] != "new_name"@[0]);
    assert("position"@[0] != "row_data"@[0]);
    assert("default_value"@.len() != "old_name"@.len());
    assert("default_value"@.len() != "new_name"@.len());
    assert("default_value"@.len() != "row_data"@.len());
    assert("old_name"@[0] != "new_name"@[0]);
    assert("old_name"@[0] != "row_data"@[0]);
    assert("new_name"@[0] != "row_data"@[0]);
}

/// The names of the members of a result document are different from each other.
pub proof fn lemma_result_names_differ()
    ensures
        "type"@ != "summary"@,
        "type"@ != "details"@,
        "type"@ != "changes"@,
        "type"@ != "unified_changes"@,
        "type"@ != "preview"@,
        "type"@ != "message"@,
        "summary"@ != "details"@,
        "summary"@ != "changes"@,
        "summary"@ != "unified_changes"@,
        "summary"@ != "preview"@,
        "summary"@ != "message"@,
        "details"@ != "changes"@,
        "details"@ != "unified_changes"@,
        "details"@ != "preview"@,
        "details"@ != "message"@,
        "changes"@ != "unified_changes"@,
        "changes"@ != "preview"@,
        "changes"@ != "message"@,
        "unified_changes"@ != "preview"@,
        "unified_changes"@ != "message"@,
        "preview"@ != "message"@,
{
    reveal_strlit("type");
    reveal_strlit("summary");
    reveal_strlit("details");
    reveal_strlit("changes");
    reveal_strlit("unified_changes");
    reveal_strlit("preview");
    reveal_strlit("message");
    assert("type"@.len() != "summary"@.len());
    assert("type"@.len() != "details"@.len());
    assert("type"@.len() != "changes"@.len());
    assert("type"@.len() != "unified_changes"@.len());
    assert("type"@.len() != "preview"@.len());
    assert("type"@.len() != "message"@.len());
    assert("summary"@[0] != "details"@[0]);
    assert("summary"@[0] != "changes"@[0]);
    assert("summary"@.len() != "unified_changes"@.len());
    assert("summary"@[0] != "preview"@[0]);
    assert("summary"@[0] != "message"@[0]);
    assert("details"@[0] != "changes"@[0]);
    assert("details"@.len() != "unified_changes"@.len());
    assert("details"@[0] != "preview"@[0]);
    assert("details"@[0] != "message"@[0]);
    assert("changes"@.len() != "unified_changes"@.len());
    assert("changes"@[0] != "preview"@[0]);
    assert("changes"@[0] != "message"@[0]);
    assert("unified_changes"@.len() != "preview"@.len());
    assert("unified_changes"@.len() != "message"@.len());
    assert("preview"@[0] != "message"@[0]);
}

/// The names of the kinds of result are different from each other.
pub proof fn lemma_result_kinds_differ()
    ensures
        "analysis"@ != "transformation"@,
        "analysis"@ != "error"@,
        "transformation"@ != "error"@,
{
    reveal_strlit("analysis");
    reveal_strlit("transformation");
    reveal_strlit("error");
    assert("analysis"@.len() != "transformation"@.len());
    assert("analysis"@.len() != "error"@.len());
    assert("transformation"@.len() != "error"@.len());
}

/// The names of the kinds of edit are different from each other.
pub proof fn lemma_edit_kinds_differ()
    ensures
        "cell"@ != "add_column"@,
        "cell"@ != "remove_column"@,
        "cell"@ != "rename_column"@,
        "cell"@ != "add_row"@,
        "cell"@ != "remove_row"@,
        "add_column"@ != "remove_column"@,
        "add_column"@ != "rename_column"@,
        "add_column"@ != "add_row"@,
        "add_column"@ != "remove_row"@,
        "remove_column"@ != "rename_column"@,
        "remove_column"@ != "add_row"@,
        "remove_column"@ != "remove_row"@,
        "rename_column"@ != "add_row"@,
        "rename_column"@ != "remove_row"@,
        "add_row"@ != "remove_row"@,
{
    reveal_strlit("cell");
    reveal_strlit("add_column");
    reveal_strlit("remove_column");
    reveal_strlit("rename_column");
    reveal_strlit("add_row");
    reveal_strlit("remove_row");
    assert("cell"@.len() != "add_column"@.len());
    assert("cell"@.len() != "remove_column"@.len());
    assert("cell"@.len() != "rename_column"@.len());
    assert("cell"@.len() != "add_row"@.len());
    assert("cell"@.len() != "remove_row"@.len());
    assert("add_column"@.len() != "remove_column"@.len());
    assert("add_column"@.len() != "rename_column"@.len());
    assert("add_column"@.len() != "add_row"@.len());
    assert("add_column"@[0] != "remove_row"@[0]);
    assert("remove_column"@[2] != "rename_column"@[2]);
    assert("remove_column"@.len() != "add_row"@.len());
    assert("remove_column"@.len() != "remove_row"@.len());
    assert("rename_column"@.len() != "add_row"@.len());
    assert("rename_column"@.len() != "remove_row"@.len());
    assert("add_row"@.len() != "remove_row"@.len());
}

/// The names of the two sides are different.
pub proof fn lemma_sides_differ()
    ensures
        "before"@ != "after"@,
{
    reveal_strlit("before");
    reveal_strlit("after");
    assert("before"@.len() != "after"@.len());
}

/// All names that stand in one place are different from each other.
pub proof fn lemma_names_differ()
    ensures
        "row"@ != "col"@,
        "row"@ != "column_name"@,
        "row"@ != "old_value"@,
        "row"@ != "new_value"@,
        "col"@ != "column_name"@,
        "col"@ != "old_value"@,
        "col"@ != "new_value"@,
        "column_name"@ != "old_value"@,
        "column_name"@ != "new_value"@,
        "old_value"@ != "new_value"@,
        "type"@ != "row_index"@,
        "type"@ != "column_index"@,
        "type"@ != "old_value"@,
        "type"@ != "new_value"@,
        "type"@ != "column_name"@,
        "type"@ != "position"@,
        "type"@ != "default_value"@,
        "type"@ != "old_name"@,
        "type"@ != "new_name"@,
        "type"@ != "row_data"@,
        "row_index"@ != "column_index"@,
        "row_index"@ != "old_value"@,
        "row_index"@ != "new_value"@,
        "row_index"@ != "column_name"@,
        "row_index"@ != "position"@,
        "row_index"@ != "default_value"@,
        "row_index"@ != "old_name"@,
        "row_index"@ != "new_name"@,
        "row_index"@ != "row_data"@,
        "column_index"@ != "old_value"@,
        "column_index"@ != "new_value"@,
        "column_index"@ != "column_name"@,
        "column_index"@ != "position"@,
        "column_index"@ != "default_value"@,
        "column_index"@ != "old_name"@,
        "column_index"@ != "new_name"@,
        "column_index"@ != "row_data"@,
        "old_value"@ != "column_name"@,
        "old_value"@ != "position"@,
        "old_value"@ != "default_value"@,
        "old_value"@ != "old_name"@,
        "old_value"@ != "new_name"@,
        "old_value"@ != "row_data"@,
        "new_value"@ != "column_name"@,
        "new_value"@ != "position"@,
        "new_value"@ != "default_value"@,
        "new_value"@ != "old_name"@,
        "new_value"@ != "new_name"@,
        "new_value"@ != "row_data"@,
        "column_name"@ != "position"@,
        "column_name"@ != "default_value"@,
        "column_name"@ != "old_name"@,
        "column_name"@ != "new_name"@,
        "column_name"@ != "row_data"@,
        "position"@ != "default_value"@,
        "position"@ != "old_name"@,
        "position"@ != "new_name"@,
        "position"@ != "row_data"@,
        "default_value"@ != "old_name"@,
        "default_value"@ != "new_name"@,
        "default_value"@ != "row_data"@,
        "old_name"@ != "new_name"@,
        "old_name"@ != "row_data"@,
        "new_name"@ != "row_data"@,
        "type"@ != "summary"@,
        "type"@ != "details"@,
        "type"@ != "changes"@,
        "type"@ != "unified_changes"@,
        "type"@ != "preview"@,
        "type"@ != "message"@,
        "summary"@ != "details"@,
        "summary"@ != "changes"@,
        "summary"@ != "unified_changes"@,
        "summary"@ != "preview"@,
        "summary"@ != "message"@,
        "details"@ != "changes"@,
        "details"@ != "unified_changes"@,
        "details"@ != "preview"@,
        "details"@ != "message"@,
        "changes"@ != "unified_changes"@,
        "changes"@ != "preview"@,
        "changes"@ != "message"@,
        "unified_changes"@ != "preview"@,
        "unified_changes"@ != "message"@,
        "preview"@ != "message"@,
        "analysis"@ != "transformation"@,
        "analysis"@ != "error"@,
        "transformation"@ != "error"@,
        "cell"@ != "add_column"@,
        "cell"@ != "remove_column"@,
        "cell"@ != "rename_column"@,
        "cell"@ != "add_row"@,
        "cell"@ != "remove_row"@,
        "add_column"@ != "remove_column"@,
        "add_column"@ != "rename_column"@,
        "add_column"@ != "add_row"@,
        "add_column"@ != "remove_row"@,
        "remove_column"@ != "rename_column"@,
        "remove_column"@ != "add_row"@,
        "remove_column"@ != "remove_row"@,
        "rename_column"@ != "add_row"@,
        "rename_column"@ != "remove_row"@,
        "add_row"@ != "remove_row"@,
        "before"@ != "after"@,
{
    lemma_entry_names_differ();
    lemma_edit_names_differ();
    lemma_result_names_differ();
    lemma_result_kinds_differ();
    lemma_edit_kinds_differ();
    lemma_sides_differ();
}

/// Reading back what was written for an index gives the index.
pub proof fn lemma_number_round_trip(n: usize)
    ensures
        index_of(number_doc(n).as_unsigned()) == Some(n),
{
}

/// Decoding the written form of every item gives the items back.
pub proof fn lemma_collect_round_trip<T>(
    items: Seq<T>,
    encode: spec_fn(T) -> JsonView,
    decode: spec_fn(JsonView) -> Option<T>,
    upto: int,
)
    requires
        0 <= upto <= items.len(),
        forall|i: int| 0 <= i < items.len() ==> decode(encode(#[trigger] items[i])) == Some(items[i]),
    ensures
        collect_upto(encoded_items(items, encode), decode, upto) == items.subrange(0, upto),
    decreases upto,
{
    if upto > 0 {
        lemma_collect_round_trip(items, encode, decode, upto - 1);
        assert(encoded_items(items, encode)[upto - 1] == encode(items[upto - 1]));
        assert(items.subrange(0, upto) =~= items.subrange(0, upto - 1).push(items[upto - 1]));
    } else {
        assert(items.subrange(0, 0) =~= Seq::<T>::empty());
    }
}

/// A cell edit in the flat form is read back as what it was.
pub proof fn lemma_change_round_trip(c: DataChangeView)
    ensures
        decoded_change(encoded_change(c)) == Some(c),
{
    lemma_names_differ();
    reveal_with_fuel(find_member, 6);
}

/// A preview is read back as what it was.
pub proof fn lemma_preview_round_trip(p: ChangePreviewView)
    ensures
        decoded_preview(encoded_preview(p)) == Some(p),
{
    lemma_names_differ();
    reveal_with_fuel(find_member, 6);
}

/// An array of strings is read back as the strings it was written from.
pub proof fn lemma_texts_round_trip(items: Seq<Seq<char>>)
    ensures
        all_text(text_array(items)->Array_0),
        texts(text_array(items)->Array_0) == items,
{
    assert(texts(text_array(items)->Array_0) =~= items);
}

/// An edit in the unified form is read back as what it was.
pub proof fn lemma_unified_round_trip(c: ChangeView)
    ensures
        decoded_unified(encoded_unified(c)) == Some(c),
{
    lemma_names_differ();
    reveal_with_fuel(find_member, 6);
    match c {
        ChangeView::AddRow { row_index, position, row_data } => {
            match row_data {
                Some(rows) => {
                    lemma_texts_round_trip(rows);
                },
                None => {},
            }
        },
        _ => {},
    }
}

/// Every payload is read back from its result document as what it was. In
/// particular a transformation with only the flat form of its edits, one
/// with only the unified form and one with both are told apart.
pub proof fn lemma_payload_round_trip(p: ResultPayloadView)
    ensures
        decoded_payload(encoded_payload(p)) == Some(p),
{
    lemma_names_differ();
    reveal_with_fuel(find_member, 6);
    match p {
        ResultPayloadView::Analysis { summary, details } => {},
        ResultPayloadView::Transformation { changes, unified_changes, preview } => {
            let doc = encoded_payload(p);
            let enc_c = |c: DataChangeView| encoded_change(c);
            let dec_c = |item: JsonView| decoded_change(item);
            let enc_u = |c: ChangeView| encoded_unified(c);
            let dec_u = |item: JsonView| decoded_unified(item);
            let enc_p = |p: ChangePreviewView| encoded_preview(p);
            let dec_p = |item: JsonView| decoded_preview(item);
            match changes {
                Some(list) => {
                    assert forall|i: int| 0 <= i < list.len() implies dec_c(
                        enc_c(#[trigger] list[i]),
                    ) == Some(list[i]) by {
                        lemma_change_round_trip(list[i]);
                    }
                    lemma_collect_round_trip(list, enc_c, dec_c, list.len() as int);
                    assert(list.subrange(0, list.len() as int) =~= list);
                },
                None => {},
            }
            match unified_changes {
                Some(list) => {
                    assert forall|i: int| 0 <= i < list.len() implies dec_u(
                        enc_u(#[trigger] list[i]),
                    ) == Some(list[i]) by {
                        lemma_unified_round_trip(list[i]);
                    }
                    lemma_collect_round_trip(list, enc_u, dec_u, list.len() as int);
                    assert(list.subrange(0, list.len() as int) =~= list);
                },
                None => {},
            }
            assert forall|i: int| 0 <= i < preview.len() implies dec_p(
                enc_p(#[trigger] preview[i]),
            ) == Some(preview[i]) by {
                lemma_preview_round_trip(preview[i]);
            }
            lemma_collect_round_trip(preview, enc_p, dec_p, preview.len() as int);
            assert(preview.subrange(0, preview.len() as int) =~= preview);
            assert(collect_optional(doc, "changes"@, dec_c) == changes);
            assert(collect_optional(doc, "unified_changes"@, dec_u) == unified_changes);
            assert(collect_member(doc, "preview"@, dec_p) == preview);
        },
        ResultPayloadView::Error { message } => {},
    }
}

/// Two payloads with the same result document are the same payload.
pub proof fn lemma_documents_tell_payloads_apart(p: ResultPayloadView, q: ResultPayloadView)
    requires
        encoded_payload(p) == encoded_payload(q),
    ensures
        p == q,
{
    lemma_payload_round_trip(p);
    lemma_payload_round_trip(q);
}

/// An index as a JSON number.
pub fn number_json(n: usize) -> (doc: Json)
    ensures
        doc@ == number_doc(n),
{
    Json::Number(JsonNumber { unsigned: Some(n as u64), text: usize_to_string(n) })
}

/// A JSON string.
pub fn text_json(text: &String) -> (doc: Json)
    ensures
        doc@ == JsonView::Text(text@),
{
    Json::Text(text.clone())
}

/// A member of an object.
pub fn member(name: &str, value: Json) -> (m: (String, Json))
    ensures
        m.0@ == name@,
        m.1@ == value@,
{
    (String::from_str(name), value)
}

/// The name of a side.
pub fn side_json(before: bool) -> (doc: Json)
    ensures
        doc@ == side_doc(before),
{
    if before {
        Json::Text(String::from_str("before"))
    } else {
        Json::Text(String::from_str("after"))
    }
}

/// A cell edit in the flat form, as an entry of `changes`.
pub fn encode_change(c: &DataChange) -> (doc: Json)
    ensures
        doc@ == encoded_change(c.deep_view()),
{
    let doc = Json::Object(
        vec![
            member("row", number_json(c.row_index)),
            member("col", number_json(c.column_index)),
            member("old_value", text_json(&c.old_value)),
            member("new_value", text_json(&c.new_value)),
        ],
    );
    assert(doc@->Object_0 =~= encoded_change(c.deep_view())->Object_0);
    doc
}

/// A preview, as an entry of `preview`.
pub fn encode_preview(p: &ChangePreview) -> (doc: Json)
    ensures
        doc@ == encoded_preview(p.deep_view()),
{
    let doc = Json::Object(
        vec![
            member("row", number_json(p.row_index)),
            member("col", number_json(p.column_index)),
            member("column_name", text_json(&p.column_name)),
            member("old_value", text_json(&p.old_value)),
            member("new_value", text_json(&p.new_value)),
        ],
    );
    assert(doc@->Object_0 =~= encoded_preview(p.deep_view())->Object_0);
    doc
}

/// An edit in the unified form, as an entry of `unified_changes`.
pub fn encode_unified(c: &Change) -> (doc: Json)
    ensures
        doc@ == encoded_unified(c.deep_view()),
{
    let doc = match c {
        Change::Cell { row_index, column_index, old_value, new_value } => Json::Object(
            vec![
                member("type", Json::Text(String::from_str("cell"))),
                member("row_index", number_json(*row_index)),
                member("column_index", number_json(*column_index)),
                member("old_value", text_json(old_value)),
                member("new_value", text_json(new_value)),
            ],
        ),
        Change::AddColumn { column_index, column_name, position, default_value } => {
            let default_doc = match default_value {
                Some(v) => text_json(v),
                None => Json::Null,
            };
            let before = match position {
                ColumnPosition::Before => true,
                ColumnPosition::After => false,
            };
            Json::Object(
                vec![
                    member("type", Json::Text(String::from_str("add_column"))),
                    member("column_index", number_json(*column_index)),
                    member("column_name", text_json(column_name)),
                    member("position", side_json(before)),
                    member("default_value", default_doc),
                ],
            )
        },
        Change::RemoveColumn { column_index, column_name } => Json::Object(
            vec![
                member("type", Json::Text(String::from_str("remove_column"))),
                member("column_index", number_json(*column_index)),
                member("column_name", text_json(column_name)),
            ],
        ),
        Change::RenameColumn { column_index, old_name, new_name } => Json::Object(
            vec![
                member("type", Json::Text(String::from_str("rename_column"))),
                member("column_index", number_json(*column_index)),
                member("old_name", text_json(old_name)),
                member("new_name", text_json(new_name)),
            ],
        ),
        Change::AddRow { row_index, position, row_data } => {
            let data_doc = match row_data {
                Some(cells) => text_items(cells),
                None => Json::Null,
            };
            let before = match position {
                RowPosition::Before => true,
                RowPosition::After => false,
            };
            Json::Object(
                vec![
                    member("type", Json::Text(String::from_str("add_row"))),
                    member("row_index", number_json(*row_index)),
                    member("position", side_json(before)),
                    member("row_data", data_doc),
                ],
            )
        },
        Change::RemoveRow { row_index } => Json::Object(
            vec![
                member("type", Json::Text(String::from_str("remove_row"))),
                member("row_index", number_json(*row_index)),
            ],
        ),
    };
    assert(doc@->Object_0 =~= encoded_unified(c.deep_view())->Object_0);
    doc
}

/// The flat edits as an array.
pub fn encode_changes(changes: &Vec<DataChange>) -> (doc: Json)
    ensures
        doc@ == JsonView::Array(
            encoded_items(changes.deep_view(), |c: DataChangeView| encoded_change(c)),
        ),
{
    let mut out: Vec<Json> = Vec::new();
    let mut i: usize = 0;
    while i < changes.len()
        invariant
            i <= changes.len(),
            out.len() == i,
            forall|k: int| 0 <= k < i ==> (#[trigger] out[k])@ == encoded_change(changes[k].deep_view()),
        decreases changes.len() - i,
    {
        out.push(encode_change(&changes[i]));
        i += 1;
    }
    let doc = Json::Array(out);
    assert(doc@->Array_0 =~= encoded_items(
        changes.deep_view(),
        |c: DataChangeView| encoded_change(c),
    ));
    doc
}

/// The unified edits as an array.
pub fn encode_unified_changes(changes: &Vec<Change>) -> (doc: Json)
    ensures
        doc@ == JsonView::Array(
            encoded_items(changes.deep_view(), |c: ChangeView| encoded_unified(c)),
        ),
{
    let mut out: Vec<Json> = Vec::new();
    let mut i: usize = 0;
    while i < changes.len()
        invariant
            i <= changes.len(),
            out.len() == i,
            forall|k: int| 0 <= k < i ==> (#[trigger] out[k])@ == encoded_unified(changes[k].deep_view()),
        decreases changes.len() - i,
    {
        out.push(encode_unified(&changes[i]));
        i += 1;
    }
    let doc = Json::Array(out);
    assert(doc@->Array_0 =~= encoded_items(
        changes.deep_view(),
        |c: ChangeView| encoded_unified(c),
    ));
    doc
}

/// The previews as an array.
pub fn encode_previews(previews: &Vec<ChangePreview>) -> (doc: Json)
    ensures
        doc@ == JsonView::Array(
            encoded_items(previews.deep_view(), |p: ChangePreviewView| encoded_preview(p)),
        ),
{
    let mut out: Vec<Json> = Vec::new();
    let mut i: usize = 0;
    while i < previews.len()
        invariant
            i <= previews.len(),
            out.len() == i,
            forall|k: int| 0 <= k < i ==> (#[trigger] out[k])@ == encoded_preview(previews[k].deep_view()),
        decreases previews.len() - i,
    {
        out.push(encode_preview(&previews[i]));
        i += 1;
    }
    let doc = Json::Array(out);
    assert(doc@->Array_0 =~= encoded_items(
        previews.deep_view(),
        |p: ChangePreviewView| encoded_preview(p),
    ));
    doc
}

/// The result document of a payload: the document that
/// [`decode_payload`](crate::ai_script::interpreter::decode_payload) reads
/// back as the payload.
pub fn encode_payload(p: &ResultPayload) -> (doc: Json)
    ensures
        doc@ == encoded_payload(p.deep_view()),
        decoded_payload(doc@) == Some(p.deep_view()),
{
    proof {
        lemma_payload_round_trip(p.deep_view());
    }
    let doc = match p {
        ResultPayload::Analysis { summary, details } => Json::Object(
            vec![
                member("type", Json::Text(String::from_str("analysis"))),
                member("summary", text_json(summary)),
                member("details", details.duplicate()),
            ],
        ),
        ResultPayload::Transformation { changes, unified_changes, preview } => {
            let changes_doc = match changes {
                Some(list) => encode_changes(list),
                None => Json::Null,
            };
            let unified_doc = match unified_changes {
                Some(list) => encode_unified_changes(list),
                None => Json::Null,
            };
            Json::Object(
                vec![
                    member("type", Json::Text(String::from_str("transformation"))),
                    member("changes", changes_doc),
                    member("unified_changes", unified_doc),
                    member("preview", encode_previews(preview)),
                ],
            )
        },
        ResultPayload::Error { message } => Json::Object(
            vec![
                member("type", Json::Text(String::from_str("error"))),
                member("message", text_json(message)),
            ],
        ),
    };
    assert(doc@->Object_0 =~= encoded_payload(p.deep_view())->Object_0);
    doc
}

} // verus!
