//! A table written out as CSV, TSV, Markdown or JSON.
//!
//! The text is made here; writing it to a file is the caller's work.

use vstd::prelude::*;
use vstd::string::*;
use vstd::utf8::encode_utf8;
use crate::ai_script::protocol::{text_array, text_items};
use crate::csv_engine::table::{cell, get_cell};
use crate::json::{compact_text, pretty_text, Json, JsonView};
use crate::text::{join_strings, joined, push_char, to_chars};
use crate::utils::error::AppError;

verus! {

/// The forms in which a table is written out.
#[derive(Clone, Copy, Debug, PartialEq, Eq, Structural)]
pub enum ExportFormat {
    Csv,
    Tsv,
    Markdown,
    JsonArray,
    JsonObject,
}

/// How a table is written out.
#[derive(Clone, Copy, Debug, PartialEq, Eq, Structural)]
pub struct ExportOptions {
    pub format: ExportFormat,
    pub include_headers: bool,
    pub pretty_print: bool,
}

/// Whether a cell must stand in quotes in CSV.
pub open spec fn needs_quotes(value: Seq<char>) -> bool {
    exists|i: int| 0 <= i < value.len() && (#[trigger] value[i] == ',' || value[i] == '"' || value[i]
        == '\n')
}

/// `value` with every quote doubled.
pub open spec fn doubled_quotes(value: Seq<char>) -> Seq<char>
    decreases value.len(),
{
    if value.len() == 0 {
        Seq::empty()
    } else if value.last() == '"' {
        doubled_quotes(value.drop_last()).push('"').push('"')
    } else {
        doubled_quotes(value.drop_last()).push(value.last())
    }
}

/// A cell as it stands in CSV.
pub open spec fn csv_cell(value: Seq<char>) -> Seq<char> {
    if needs_quotes(value) {
        seq!['"'] + doubled_quotes(value) + seq!['"']
    } else {
        value
    }
}

/// A row as a line of CSV, without its line ending.
pub open spec fn csv_line(row: Seq<Seq<char>>) -> Seq<char> {
    joined(Seq::new(row.len(), |i: int| csv_cell(row[i])), ","@)
}

/// The first `upto` rows, each written by `line` and ended by a line feed.
pub open spec fn lines_text(
    rows: Seq<Seq<Seq<char>>>,
    line: spec_fn(Seq<Seq<char>>) -> Seq<char>,
    upto: int,
) -> Seq<char>
    decreases upto,
{
    if upto <= 0 || upto > rows.len() {
        Seq::empty()
    } else {
        lines_text(rows, line, upto - 1) + line(rows[upto - 1]) + seq!['\n']
    }
}

/// The heading of a table with fields separated by `sep`, where headers are
/// asked for.
pub open spec fn heading(headers: Seq<Seq<char>>, sep: Seq<char>, with_heading: bool) -> Seq<char> {
    if with_heading {
        joined(headers, sep) + seq!['\n']
    } else {
        Seq::empty()
    }
}

/// The table as CSV. Headers are written as they are.
pub open spec fn csv_text(headers: Seq<Seq<char>>, rows: Seq<Seq<Seq<char>>>, with_heading: bool) -> Seq<
    char,
> {
    heading(headers, ","@, with_heading) + lines_text(
        rows,
        |row: Seq<Seq<char>>| csv_line(row),
        rows.len() as int,
    )
}

/// The table as TSV.
pub open spec fn tsv_text(headers: Seq<Seq<char>>, rows: Seq<Seq<Seq<char>>>, with_heading: bool) -> Seq<
    char,
> {
    heading(headers, "\t"@, with_heading) + lines_text(
        rows,
        |row: Seq<Seq<char>>| joined(row, "\t"@),
        rows.len() as int,
    )
}

/// The length of a value in bytes of UTF-8.
pub open spec fn byte_len(value: Seq<char>) -> usize {
    encode_utf8(value).len() as usize
}

/// The width of column `col` as far as the first `upto` rows show it: the
/// length in bytes of its longest cell, the header included.
pub open spec fn width_upto(
    headers: Seq<Seq<char>>,
    rows: Seq<Seq<Seq<char>>>,
    col: int,
    upto: int,
) -> usize
    decreases upto,
{
    if upto <= 0 {
        byte_len(headers[col])
    } else {
        let before = width_upto(headers, rows, col, upto - 1);
        match cell(rows, upto - 1, col) {
            Some(value) => if byte_len(value) > before {
                byte_len(value)
            } else {
                before
            },
            None => before,
        }
    }
}

/// The widths of the columns that have a header.
pub open spec fn widths(headers: Seq<Seq<char>>, rows: Seq<Seq<Seq<char>>>) -> Seq<usize> {
    Seq::new(headers.len(), |col: int| width_upto(headers, rows, col, rows.len() as int))
}

/// `count` times the character `c`.
pub open spec fn repeated(c: char, count: int) -> Seq<char> {
    Seq::new(
        if count > 0 {
            count as nat
        } else {
            0
        },
        |i: int| c,
    )
}

/// A cell of a Markdown table: the value, spaces up to `width` characters,
/// and the bar that ends the cell.
pub open spec fn md_cell(value: Seq<char>, width: usize) -> Seq<char> {
    value + repeated(' ', width - value.len()) + " | "@
}

/// The width of column `col`; 0 for a column without a header.
pub open spec fn width_at(all: Seq<usize>, col: int) -> usize {
    if 0 <= col < all.len() {
        all[col]
    } else {
        0
    }
}

/// The first `upto` cells of a row of a Markdown table.
pub open spec fn md_cells(row: Seq<Seq<char>>, all: Seq<usize>, upto: int) -> Seq<char>
    decreases upto,
{
    if upto <= 0 || upto > row.len() {
        Seq::empty()
    } else {
        md_cells(row, all, upto - 1) + md_cell(row[upto - 1], width_at(all, upto - 1))
    }
}

/// A row of a Markdown table, without its line ending.
pub open spec fn md_line(row: Seq<Seq<char>>, all: Seq<usize>) -> Seq<char> {
    "| "@ + md_cells(row, all, row.len() as int)
}

/// The first `upto` cells of the line under the heading of a Markdown
/// table: for each column dashes over its width and the two spaces around
/// it, and a bar.
pub open spec fn md_rules(all: Seq<usize>, upto: int) -> Seq<char>
    decreases upto,
{
    if upto <= 0 || upto > all.len() {
        Seq::empty()
    } else {
        md_rules(all, upto - 1) + seq!['-'] + repeated('-', all[upto - 1] as int) + seq!['-', '|']
    }
}

/// The heading of a Markdown table with the line under it, where headers
/// are asked for.
pub open spec fn md_heading(headers: Seq<Seq<char>>, all: Seq<usize>, with_heading: bool) -> Seq<char> {
    if with_heading {
        md_line(headers, all) + seq!['\n'] + seq!['|'] + md_rules(all, all.len() as int) + seq![
            '\n',
        ]
    } else {
        Seq::empty()
    }
}

/// The table as a Markdown table.
pub open spec fn markdown_text(
    headers: Seq<Seq<char>>,
    rows: Seq<Seq<Seq<char>>>,
    with_heading: bool,
) -> Seq<char> {
    md_heading(headers, widths(headers, rows), with_heading) + lines_text(
        rows,
        |row: Seq<Seq<char>>| md_line(row, widths(headers, rows)),
        rows.len() as int,
    )
}

/// The table as an array of arrays of strings, the headers first where
/// they are asked for.
pub open spec fn array_doc(headers: Seq<Seq<char>>, rows: Seq<Seq<Seq<char>>>, with_heading: bool) -> JsonView {
    if with_heading {
        JsonView::Array(
            Seq::new(
                rows.len() + 1,
                |i: int|
                    if i == 0 {
                        text_array(headers)
                    } else {
                        text_array(rows[i - 1])
                    },
            ),
        )
    } else {
        JsonView::Array(Seq::new(rows.len(), |i: int| text_array(rows[i])))
    }
}

/// A row as an object: for each header the cell of its column, or an empty
/// string where the row is too short.
pub open spec fn row_object(headers: Seq<Seq<char>>, row: Seq<Seq<char>>) -> JsonView {
    JsonView::Object(
        Seq::new(
            headers.len(),
            |i: int|
                (
                    headers[i],
                    JsonView::Text(
                        if i < row.len() {
                            row[i]
                        } else {
                            Seq::empty()
                        },
                    ),
                ),
        ),
    )
}

/// The table as an array of objects.
pub open spec fn objects_doc(headers: Seq<Seq<char>>, rows: Seq<Seq<Seq<char>>>) -> JsonView {
    JsonView::Array(Seq::new(rows.len(), |i: int| row_object(headers, rows[i])))
}

/// The text of a document, indented where `pretty` says so.
pub open spec fn document_text(doc: JsonView, pretty: bool) -> Option<Seq<char>> {
    if pretty {
        pretty_text(doc)
    } else {
        compact_text(doc)
    }
}

/// The first `upto` rows of a table.
pub open spec fn first_rows(rows: Seq<Seq<Seq<char>>>, upto: int) -> Seq<Seq<Seq<char>>> {
    if upto >= rows.len() {
        rows
    } else if upto <= 0 {
        Seq::empty()
    } else {
        rows.subrange(0, upto)
    }
}

/// The table written out in the form that `options` ask for; nothing where
/// the JSON text cannot be written.
pub open spec fn exported(
    headers: Seq<Seq<char>>,
    rows: Seq<Seq<Seq<char>>>,
    options: ExportOptions,
) -> Option<Seq<char>> {
    match options.format {
        ExportFormat::Csv => Some(csv_text(headers, rows, options.include_headers)),
        ExportFormat::Tsv => Some(tsv_text(headers, rows, options.include_headers)),
        ExportFormat::Markdown => Some(markdown_text(headers, rows, options.include_headers)),
        ExportFormat::JsonArray => document_text(
            array_doc(headers, rows, options.include_headers),
            options.pretty_print,
        ),
        ExportFormat::JsonObject => document_text(objects_doc(headers, rows), options.pretty_print),
    }
}

/// The exporter of tables.
pub struct Exporter;

impl Exporter {
    /// A cell as it stands in CSV.
    pub fn escape_csv(value: &str) -> (r: String)
        ensures
            r@ == csv_cell(value@),
    {
        let v = to_chars(value);
        let mut quoted = String::new();
        let mut special = false;
        let mut i: usize = 0;
        assert(v@.subrange(0, 0) =~= Seq::<char>::empty());
        while i < v.len()
            invariant
                i <= v.len(),
                v@ == value@,
                quoted@ == doubled_quotes(v@.subrange(0, i as int)),
                special == needs_quotes(v@.subrange(0, i as int)),
            decreases v.len() - i,
        {
            let c = v[i];
            let ghost before = v@.subrange(0, i as int);
            let ghost next = v@.subrange(0, i + 1);
            assert(next.drop_last() =~= before);
            assert(next.last() == c);
            if c == '"' {
                push_char(&mut quoted, '"');
                push_char(&mut quoted, '"');
            } else {
                push_char(&mut quoted, c);
            }
            proof {
                if needs_quotes(before) {
                    let k = choose|k: int|
                        0 <= k < before.len() && (#[trigger] before[k] == ',' || before[k] == '"'
                            || before[k] == '\n');
                    assert(next[k] == before[k]);
                    assert(needs_quotes(next));
                } else if c == ',' || c == '"' || c == '\n' {
                    assert(next[i as int] == c);
                    assert(needs_quotes(next));
                } else {
                    if needs_quotes(next) {
                        let k = choose|k: int|
                            0 <= k < next.len() && (#[trigger] next[k] == ',' || next[k] == '"'
                                || next[k] == '\n');
                        if k < i {
                            assert(before[k] == next[k]);
                        }
                    }
                }
            }
            if c == ',' || c == '"' || c == '\n' {
                special = true;
            }
            i += 1;
        }
        assert(v@.subrange(0, v.len() as int) =~= v@);
        if special {
            let mut out = String::new();
            push_char(&mut out, '"');
            out.append(quoted.as_str());
            push_char(&mut out, '"');
            assert(out@ =~= seq!['"'] + doubled_quotes(value@) + seq!['"']);
            out
        } else {
            String::from_str(value)
        }
    }

    /// The table as CSV.
    pub fn generate_csv_string(headers: &Vec<String>, rows: &Vec<Vec<String>>, options: &ExportOptions) -> (r:
        Result<String, AppError>)
        ensures
            r is Ok,
            r->Ok_0@ == csv_text(headers.deep_view(), rows.deep_view(), options.include_headers),
    {
        let mut content = String::new();
        if options.include_headers {
            content.append(join_strings(headers, ",").as_str());
            push_char(&mut content, '\n');
        }
        let ghost head = content@;
        let ghost line = |row: Seq<Seq<char>>| csv_line(row);
        assert(head =~= heading(headers.deep_view(), ","@, options.include_headers));
        let mut i: usize = 0;
        assert(content@ =~= head + lines_text(rows.deep_view(), line, 0));
        while i < rows.len()
            invariant
                i <= rows.len(),
                line == (|row: Seq<Seq<char>>| csv_line(row)),
                content@ == head + lines_text(rows.deep_view(), line, i as int),
            decreases rows.len() - i,
        {
            let row = &rows[i];
            let mut cells: Vec<String> = Vec::new();
            let mut k: usize = 0;
            while k < row.len()
                invariant
                    k <= row.len(),
                    cells.len() == k,
                    forall|j: int| 0 <= j < k ==> (#[trigger] cells[j])@ == csv_cell(row[j]@),
                decreases row.len() - k,
            {
                cells.push(Exporter::escape_csv(row[k].as_str()));
                k += 1;
            }
            assert(cells.deep_view() =~= Seq::new(
                row.deep_view().len(),
                |i: int| csv_cell(row.deep_view()[i]),
            ));
            let text = join_strings(&cells, ",");
            assert(text@ == line(rows.deep_view()[i as int]));
            content.append(text.as_str());
            push_char(&mut content, '\n');
            i += 1;
            assert(content@ =~= head + lines_text(rows.deep_view(), line, i as int));
        }
        Ok(content)
    }

    /// The table as TSV.
    pub fn generate_tsv_string(headers: &Vec<String>, rows: &Vec<Vec<String>>, options: &ExportOptions) -> (r:
        Result<String, AppError>)
        ensures
            r is Ok,
            r->Ok_0@ == tsv_text(headers.deep_view(), rows.deep_view(), options.include_headers),
    {
        let mut content = String::new();
        if options.include_headers {
            content.append(join_strings(headers, "\t").as_str());
            push_char(&mut content, '\n');
        }
        let ghost head = content@;
        let ghost line = |row: Seq<Seq<char>>| joined(row, "\t"@);
        assert(head =~= heading(headers.deep_view(), "\t"@, options.include_headers));
        let mut i: usize = 0;
        assert(content@ =~= head + lines_text(rows.deep_view(), line, 0));
        while i < rows.len()
            invariant
                i <= rows.len(),
                line == (|row: Seq<Seq<char>>| joined(row, "\t"@)),
                content@ == head + lines_text(rows.deep_view(), line, i as int),
            decreases rows.len() - i,
        {
            let text = join_strings(&rows[i], "\t");
            assert(text@ == line(rows.deep_view()[i as int]));
            content.append(text.as_str());
            push_char(&mut content, '\n');
            i += 1;
            assert(content@ =~= head + lines_text(rows.deep_view(), line, i as int));
        }
        Ok(content)
    }

    /// The widths of the columns that have a header.
    pub fn column_widths(headers: &Vec<String>, rows: &Vec<Vec<String>>) -> (all: Vec<usize>)
        ensures
            all.deep_view() == widths(headers.deep_view(), rows.deep_view()),
    {
        let mut all: Vec<usize> = Vec::new();
        let mut col: usize = 0;
        while col < headers.len()
            invariant
                col <= headers.len(),
                all.len() == col,
                forall|c: int|
                    0 <= c < col ==> (#[trigger] all[c]) == width_upto(
                        headers.deep_view(),
                        rows.deep_view(),
                        c,
                        rows.len() as int,
                    ),
            decreases headers.len() - col,
        {
            let mut width: usize = headers[col].as_str().len();
            let mut row: usize = 0;
            while row < rows.len()
                invariant
                    row <= rows.len(),
                    col < headers.len(),
                    width == width_upto(
                        headers.deep_view(),
                        rows.deep_view(),
                        col as int,
                        row as int,
                    ),
                decreases rows.len() - row,
            {
                if let Some(value) = get_cell(rows.as_slice(), row, col) {
                    let len = value.as_str().len();
                    if len > width {
                        width = len;
                    }
                }
                row += 1;
            }
            all.push(width);
            col += 1;
        }
        assert(all.deep_view() =~= widths(headers.deep_view(), rows.deep_view()));
        all
    }

    /// Appends `count` times the character `c`.
    fn push_repeated(out: &mut String, c: char, count: usize)
        ensures
            final(out)@ == old(out)@ + repeated(c, count as int),
    {
        let mut i: usize = 0;
        assert(out@ =~= old(out)@ + repeated(c, 0));
        while i < count
            invariant
                i <= count,
                out@ == old(out)@ + repeated(c, i as int),
            decreases count - i,
        {
            push_char(out, c);
            i += 1;
            assert(out@ =~= old(out)@ + repeated(c, i as int));
        }
    }

    /// Appends a row of a Markdown table, without its line ending.
    fn push_md_line(out: &mut String, row: &Vec<String>, all: &Vec<usize>)
        ensures
            final(out)@ == old(out)@ + md_line(row.deep_view(), all.deep_view()),
    {
        out.append("| ");
        let ghost start = out@;
        let mut i: usize = 0;
        assert(out@ =~= start + md_cells(row.deep_view(), all.deep_view(), 0));
        while i < row.len()
            invariant
                i <= row.len(),
                start == old(out)@ + "| "@,
                out@ == start + md_cells(row.deep_view(), all.deep_view(), i as int),
            decreases row.len() - i,
        {
            let width: usize = if i < all.len() {
                all[i]
            } else {
                0
            };
            let ghost so_far = out@;
            let chars = row[i].as_str().unicode_len();
            out.append(row[i].as_str());
            if chars < width {
                Exporter::push_repeated(out, ' ', width - chars);
            } else {
                assert(repeated(' ', width - chars) =~= Seq::<char>::empty());
            }
            out.append(" | ");
            assert(width == width_at(all.deep_view(), i as int));
            assert(out@ =~= so_far + md_cell(row.deep_view()[i as int], width));
            i += 1;
            assert(out@ =~= start + md_cells(row.deep_view(), all.deep_view(), i as int));
        }
        assert(out@ =~= old(out)@ + md_line(row.deep_view(), all.deep_view()));
    }

    /// The table as a Markdown table.
    pub fn generate_markdown_string(
        headers: &Vec<String>,
        rows: &Vec<Vec<String>>,
        options: &ExportOptions,
    ) -> (r: Result<String, AppError>)
        ensures
            r is Ok,
            r->Ok_0@ == markdown_text(
                headers.deep_view(),
                rows.deep_view(),
                options.include_headers,
            ),
    {
        let all = Exporter::column_widths(headers, rows);
        let mut content = String::new();
        if options.include_headers {
            Exporter::push_md_line(&mut content, headers, &all);
            push_char(&mut content, '\n');
            push_char(&mut content, '|');
            let ghost start = content@;
            let mut k: usize = 0;
            assert(content@ =~= start + md_rules(all.deep_view(), 0));
            while k < all.len()
                invariant
                    k <= all.len(),
                    content@ == start + md_rules(all.deep_view(), k as int),
                decreases all.len() - k,
            {
                push_char(&mut content, '-');
                Exporter::push_repeated(&mut content, '-', all[k]);
                push_char(&mut content, '-');
                push_char(&mut content, '|');
                k += 1;
                assert(content@ =~= start + md_rules(all.deep_view(), k as int));
            }
            push_char(&mut content, '\n');
        }
        let ghost head = content@;
        let ghost table_widths = widths(headers.deep_view(), rows.deep_view());
        let ghost line = |row: Seq<Seq<char>>| md_line(row, widths(headers.deep_view(), rows.deep_view()));
        assert(head =~= md_heading(headers.deep_view(), table_widths, options.include_headers));
        let mut i: usize = 0;
        assert(content@ =~= head + lines_text(rows.deep_view(), line, 0));
        while i < rows.len()
            invariant
                i <= rows.len(),
                all.deep_view() == table_widths,
                table_widths == widths(headers.deep_view(), rows.deep_view()),
                line == (|row: Seq<Seq<char>>|
                    md_line(row, widths(headers.deep_view(), rows.deep_view()))),
                content@ == head + lines_text(rows.deep_view(), line, i as int),
            decreases rows.len() - i,
        {
            let ghost so_far = content@;
            Exporter::push_md_line(&mut content, &rows[i], &all);
            assert(content@ == so_far + line(rows.deep_view()[i as int]));
            push_char(&mut content, '\n');
            i += 1;
            assert(content@ =~= head + lines_text(rows.deep_view(), line, i as int));
        }
        Ok(content)
    }

    /// The table as an array of arrays of strings.
    pub fn array_document(headers: &Vec<String>, rows: &Vec<Vec<String>>, include_headers: bool) -> (doc:
        Json)
        ensures
            doc@ == array_doc(headers.deep_view(), rows.deep_view(), include_headers),
    {
        let mut items: Vec<Json> = Vec::new();
        if include_headers {
            items.push(text_items(headers));
            let mut i: usize = 0;
            while i < rows.len()
                invariant
                    i <= rows.len(),
                    items.len() == i + 1,
                    items[0]@ == text_array(headers.deep_view()),
                    forall|k: int|
                        1 <= k <= i ==> (#[trigger] items[k])@ == text_array(
                            rows[k - 1].deep_view(),
                        ),
                decreases rows.len() - i,
            {
                items.push(text_items(&rows[i]));
                i += 1;
            }
        } else {
            let mut i: usize = 0;
            while i < rows.len()
                invariant
                    i <= rows.len(),
                    items.len() == i,
                    forall|k: int|
                        0 <= k < i ==> (#[trigger] items[k])@ == text_array(rows[k].deep_view()),
                decreases rows.len() - i,
            {
                items.push(text_items(&rows[i]));
                i += 1;
            }
        }
        let doc = Json::Array(items);
        assert(doc@->Array_0 =~= array_doc(
            headers.deep_view(),
            rows.deep_view(),
            include_headers,
        )->Array_0);
        doc
    }

    /// A row as an object.
    pub fn row_document(headers: &Vec<String>, row: &Vec<String>) -> (doc: Json)
        ensures
            doc@ == row_object(headers.deep_view(), row.deep_view()),
    {
        let mut members: Vec<(String, Json)> = Vec::new();
        let mut i: usize = 0;
        while i < headers.len()
            invariant
                i <= headers.len(),
                members.len() == i,
                forall|k: int|
                    0 <= k < i ==> (#[trigger] members[k]).0@ == headers[k]@ && members[k].1@
                        == JsonView::Text(
                        if k < row.len() {
                            row[k]@
                        } else {
                            Seq::empty()
                        },
                    ),
            decreases headers.len() - i,
        {
            let value = if i < row.len() {
                row[i].clone()
            } else {
                String::new()
            };
            members.push((headers[i].clone(), Json::Text(value)));
            i += 1;
        }
        let doc = Json::Object(members);
        assert(doc@->Object_0 =~= row_object(headers.deep_view(), row.deep_view())->Object_0);
        doc
    }

    /// The table as an array of objects.
    pub fn objects_document(headers: &Vec<String>, rows: &Vec<Vec<String>>) -> (doc: Json)
        ensures
            doc@ == objects_doc(headers.deep_view(), rows.deep_view()),
    {
        let mut items: Vec<Json> = Vec::new();
        let mut i: usize = 0;
        while i < rows.len()
            invariant
                i <= rows.len(),
                items.len() == i,
                forall|k: int|
                    0 <= k < i ==> (#[trigger] items[k])@ == row_object(
                        headers.deep_view(),
                        rows[k].deep_view(),
                    ),
            decreases rows.len() - i,
        {
            items.push(Exporter::row_document(headers, &rows[i]));
            i += 1;
        }
        let doc = Json::Array(items);
        assert(doc@->Array_0 =~= objects_doc(headers.deep_view(), rows.deep_view())->Array_0);
        doc
    }

    /// The text of a document, or the error of a document that cannot be
    /// written.
    fn write_document(doc: &Json, pretty: bool) -> (r: Result<String, AppError>)
        ensures
            match document_text(doc@, pretty) {
                Some(text) => r is Ok && r->Ok_0@ == text,
                None => r is Err && r->Err_0.code@ == "JSON_SERIALIZATION_ERROR"@,
            },
    {
        let text = if pretty {
            doc.to_pretty_text()
        } else {
            doc.to_text()
        };
        match text {
            Some(t) => Ok(t),
            None => Err(
                AppError::new(
                    String::from_str("Failed to serialize to JSON"),
                    String::from_str("JSON_SERIALIZATION_ERROR"),
                ),
            ),
        }
    }

    /// The table as JSON, an array of arrays of strings.
    pub fn generate_json_array_string(
        headers: &Vec<String>,
        rows: &Vec<Vec<String>>,
        options: &ExportOptions,
    ) -> (r: Result<String, AppError>)
        ensures
            match document_text(
                array_doc(headers.deep_view(), rows.deep_view(), options.include_headers),
                options.pretty_print,
            ) {
                Some(text) => r is Ok && r->Ok_0@ == text,
                None => r is Err && r->Err_0.code@ == "JSON_SERIALIZATION_ERROR"@,
            },
    {
        let doc = Exporter::array_document(headers, rows, options.include_headers);
        Exporter::write_document(&doc, options.pretty_print)
    }

    /// The table as JSON, an array of objects.
    pub fn generate_json_object_string(
        headers: &Vec<String>,
        rows: &Vec<Vec<String>>,
        options: &ExportOptions,
    ) -> (r: Result<String, AppError>)
        ensures
            match document_text(
                objects_doc(headers.deep_view(), rows.deep_view()),
                options.pretty_print,
            ) {
                Some(text) => r is Ok && r->Ok_0@ == text,
                None => r is Err && r->Err_0.code@ == "JSON_SERIALIZATION_ERROR"@,
            },
    {
        let doc = Exporter::objects_document(headers, rows);
        Exporter::write_document(&doc, options.pretty_print)
    }

    /// The table written out in the form that `options` ask for.
    pub fn generate(headers: &Vec<String>, rows: &Vec<Vec<String>>, options: &ExportOptions) -> (r:
        Result<String, AppError>)
        ensures
            match exported(headers.deep_view(), rows.deep_view(), *options) {
                Some(text) => r is Ok && r->Ok_0@ == text,
                None => r is Err && r->Err_0.code@ == "JSON_SERIALIZATION_ERROR"@,
            },
    {
        match options.format {
            ExportFormat::Csv => Exporter::generate_csv_string(headers, rows, options),
            ExportFormat::Tsv => Exporter::generate_tsv_string(headers, rows, options),
            ExportFormat::Markdown => Exporter::generate_markdown_string(headers, rows, options),
            ExportFormat::JsonArray => Exporter::generate_json_array_string(headers, rows, options),
            ExportFormat::JsonObject => Exporter::generate_json_object_string(
                headers,
                rows,
                options,
            ),
        }
    }

    /// The first `max_rows` rows of the table written out in the form that
    /// `options` ask for.
    pub fn generate_preview(
        headers: &Vec<String>,
        rows: &Vec<Vec<String>>,
        options: &ExportOptions,
        max_rows: usize,
    ) -> (r: Result<String, AppError>)
        ensures
            match exported(
                headers.deep_view(),
                first_rows(rows.deep_view(), max_rows as int),
                *options,
            ) {
                Some(text) => r is Ok && r->Ok_0@ == text,
                None => r is Err && r->Err_0.code@ == "JSON_SERIALIZATION_ERROR"@,
            },
    {
        let count: usize = if max_rows < rows.len() {
            max_rows
        } else {
            rows.len()
        };
        let mut shown: Vec<Vec<String>> = Vec::new();
        let mut i: usize = 0;
        while i < count
            invariant
                i <= count <= rows.len(),
                shown.len() == i,
                forall|k: int| 0 <= k < i ==> (#[trigger] shown[k]).deep_view() == rows[k].deep_view(),
            decreases count - i,
        {
            let copy = rows[i].clone();
            assert(copy.deep_view() =~= rows[i as int].deep_view());
            shown.push(copy);
            i += 1;
        }
        assert(shown.deep_view() =~= first_rows(rows.deep_view(), max_rows as int));
        Exporter::generate(headers, &shown, options)
    }
}

} // verus!
