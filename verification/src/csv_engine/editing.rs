//! Edits of the shape of a table: columns and rows added, removed, renamed
//! and moved.
//!
//! A table need not be rectangular. Where a column is put into a row that is
//! too short for it, the row is first filled up with empty cells.

use vstd::prelude::*;
use vstd::string::*;
use crate::utils::error::AppError;

verus! {

/// A table: headers and rows of cells.
#[derive(Clone, Debug, PartialEq, Eq)]
pub struct CsvTable {
    pub headers: Vec<String>,
    pub rows: Vec<Vec<String>>,
}

/// The mathematical value of a [`CsvTable`].
pub struct CsvTableView {
    pub headers: Seq<Seq<char>>,
    pub rows: Seq<Seq<Seq<char>>>,
}

impl DeepView for CsvTable {
    type V = CsvTableView;

    open spec fn deep_view(&self) -> CsvTableView {
        CsvTableView { headers: self.headers.deep_view(), rows: self.rows.deep_view() }
    }
}

/// What is wrong with a request for an edit.
#[derive(Clone, Copy, Debug, PartialEq, Eq, Structural)]
pub enum EditError {
    /// A column cannot be put at this position.
    InvalidColumnPosition,
    /// A row cannot be put at this position.
    InvalidRowPosition,
    /// There is no column at this index.
    InvalidColumnIndex,
    /// There is no row at this index.
    InvalidRowIndex,
    /// A row cannot be moved from or to this index.
    InvalidRowMove,
    /// A column cannot be moved from or to this index.
    InvalidColumnMove,
}

/// The message of an error.
pub open spec fn edit_message(e: EditError) -> Seq<char> {
    match e {
        EditError::InvalidColumnPosition => "Invalid column position"@,
        EditError::InvalidRowPosition => "Invalid row position"@,
        EditError::InvalidColumnIndex => "Invalid column index"@,
        EditError::InvalidRowIndex => "Invalid row index"@,
        EditError::InvalidRowMove => "Invalid row index for move operation"@,
        EditError::InvalidColumnMove => "Invalid column index for move operation"@,
    }
}

/// The code of an error.
pub open spec fn edit_code(e: EditError) -> Seq<char> {
    match e {
        EditError::InvalidColumnPosition => "INVALID_POSITION"@,
        EditError::InvalidRowPosition => "INVALID_POSITION"@,
        EditError::InvalidColumnIndex => "INVALID_INDEX"@,
        EditError::InvalidRowIndex => "INVALID_INDEX"@,
        EditError::InvalidRowMove => "INVALID_ROW_INDEX"@,
        EditError::InvalidColumnMove => "INVALID_COLUMN_INDEX"@,
    }
}

impl EditError {
    /// The error as the application reports it.
    pub fn to_app_error(&self) -> (e: AppError)
        ensures
            e.message@ == edit_message(*self),
            e.code@ == edit_code(*self),
    {
        match self {
            EditError::InvalidColumnPosition => AppError::new(
                String::from_str("Invalid column position"),
                String::from_str("INVALID_POSITION"),
            ),
            EditError::InvalidRowPosition => AppError::new(
                String::from_str("Invalid row position"),
                String::from_str("INVALID_POSITION"),
            ),
            EditError::InvalidColumnIndex => AppError::new(
                String::from_str("Invalid column index"),
                String::from_str("INVALID_INDEX"),
            ),
            EditError::InvalidRowIndex => AppError::new(
                String::from_str("Invalid row index"),
                String::from_str("INVALID_INDEX"),
            ),
            EditError::InvalidRowMove => AppError::new(
                String::from_str("Invalid row index for move operation"),
                String::from_str("INVALID_ROW_INDEX"),
            ),
            EditError::InvalidColumnMove => AppError::new(
                String::from_str("Invalid column index for move operation"),
                String::from_str("INVALID_COLUMN_INDEX"),
            ),
        }
    }
}

/// A row filled up with empty cells to `width` cells; as it is where it has
/// as many or more.
pub open spec fn filled(row: Seq<Seq<char>>, width: int) -> Seq<Seq<char>> {
    if row.len() >= width {
        row
    } else {
        row + Seq::new((width - row.len()) as nat, |i: int| Seq::<char>::empty())
    }
}

/// A row with an empty cell put in at `position`.
pub open spec fn with_cell(row: Seq<Seq<char>>, position: int) -> Seq<Seq<char>> {
    filled(row, position).insert(position, Seq::empty())
}

/// A row without the cell at `index`, where it has one.
pub open spec fn without_cell(row: Seq<Seq<char>>, index: int) -> Seq<Seq<char>> {
    if 0 <= index < row.len() {
        row.remove(index)
    } else {
        row
    }
}

/// A row with the cell at `from` moved to `to`, where it has a cell at
/// `from`. The row is filled up to more than `to` cells before the cell is
/// put in.
pub open spec fn with_moved_cell(row: Seq<Seq<char>>, from: int, to: int) -> Seq<Seq<char>> {
    if 0 <= from < row.len() {
        filled(row.remove(from), to + 1).insert(to, row[from])
    } else {
        row
    }
}

/// Where what is moved from `from` to before `to` is put in, once it is
/// taken out.
pub open spec fn landing(from: int, to: int) -> int {
    if to > from {
        to - 1
    } else {
        to
    }
}

/// The position that a request means: the given one, or the end.
pub open spec fn position_or_end(position: Option<usize>, end: nat) -> int {
    match position {
        Some(p) => p as int,
        None => end as int,
    }
}

/// The view of the outcome of an edit.
pub open spec fn edit_view(r: Result<CsvTable, EditError>) -> Result<CsvTableView, EditError> {
    match r {
        Ok(t) => Ok(t.deep_view()),
        Err(e) => Err(e),
    }
}

/// Fills a row up with empty cells to `width` cells.
pub fn fill_row(row: &mut Vec<String>, width: usize)
    ensures
        final(row).deep_view() == filled(old(row).deep_view(), width as int),
        final(row).len() >= width,
        final(row).len() >= old(row).len(),
        final(row).len() == width || final(row).len() == old(row).len(),
{
    let ghost before = row.deep_view();
    while row.len() < width
        invariant
            before.len() <= row.len(),
            before.len() == old(row).len(),
            row.len() <= width || row.len() == before.len(),
            forall|k: int| 0 <= k < before.len() ==> (#[trigger] row[k])@ == before[k],
            forall|k: int| before.len() <= k < row.len() ==> (#[trigger] row[k])@ == Seq::<char>::empty(),
        decreases width - row.len(),
    {
        row.push(String::new());
    }
    assert(row.deep_view() =~= filled(before, width as int));
}

/// Puts a column with the header `column_name` and empty cells in at
/// `position`, or at the end where no position is given.
pub fn add_column(data: CsvTable, column_name: String, position: Option<usize>) -> (r: Result<
    CsvTable,
    EditError,
>)
    ensures
        ({
            let p = position_or_end(position, data.headers.len() as nat);
            if p > data.headers.len() {
                edit_view(r) == Err::<CsvTableView, EditError>(EditError::InvalidColumnPosition)
            } else {
                edit_view(r) == Ok::<CsvTableView, EditError>(
                    CsvTableView {
                        headers: data.headers.deep_view().insert(p, column_name@),
                        rows: Seq::new(
                            data.rows.len() as nat,
                            |i: int| with_cell(data.rows.deep_view()[i], p),
                        ),
                    },
                )
            }
        }),
{
    let mut data = data;
    let ghost old_headers = data.headers.deep_view();
    let ghost old_rows = data.rows.deep_view();
    let position: usize = match position {
        Some(p) => p,
        None => data.headers.len(),
    };
    if position > data.headers.len() {
        return Err(EditError::InvalidColumnPosition);
    }
    data.headers.insert(position, column_name);
    assert(data.headers.deep_view() =~= old_headers.insert(position as int, column_name@));
    let mut rows: Vec<Vec<String>> = Vec::new();
    let mut i: usize = 0;
    while i < data.rows.len()
        invariant
            i <= data.rows.len(),
            data.rows.deep_view() == old_rows,
            rows.len() == i,
            forall|k: int|
                0 <= k < i ==> (#[trigger] rows[k]).deep_view() == with_cell(old_rows[k], position as int),
        decreases data.rows.len() - i,
    {
        let mut row = data.rows[i].clone();
        assert(row.deep_view() =~= old_rows[i as int]);
        fill_row(&mut row, position);
        let ghost full = row.deep_view();
        row.insert(position, String::new());
        assert(row.deep_view() =~= full.insert(position as int, Seq::empty()));
        rows.push(row);
        i += 1;
    }
    assert(rows.deep_view() =~= Seq::new(
        old_rows.len(),
        |i: int| with_cell(old_rows[i], position as int),
    ));
    Ok(CsvTable { headers: data.headers, rows })
}

/// Removes the column at `column_index`.
pub fn delete_column(data: CsvTable, column_index: usize) -> (r: Result<CsvTable, EditError>)
    ensures
        if column_index >= data.headers.len() {
            edit_view(r) == Err::<CsvTableView, EditError>(EditError::InvalidColumnIndex)
        } else {
            edit_view(r) == Ok::<CsvTableView, EditError>(
                CsvTableView {
                    headers: data.headers.deep_view().remove(column_index as int),
                    rows: Seq::new(
                        data.rows.len() as nat,
                        |i: int| without_cell(data.rows.deep_view()[i], column_index as int),
                    ),
                },
            )
        },
{
    let mut data = data;
    let ghost old_headers = data.headers.deep_view();
    let ghost old_rows = data.rows.deep_view();
    if column_index >= data.headers.len() {
        return Err(EditError::InvalidColumnIndex);
    }
    data.headers.remove(column_index);
    assert(data.headers.deep_view() =~= old_headers.remove(column_index as int));
    let mut rows: Vec<Vec<String>> = Vec::new();
    let mut i: usize = 0;
    while i < data.rows.len()
        invariant
            i <= data.rows.len(),
            data.rows.deep_view() == old_rows,
            rows.len() == i,
            forall|k: int|
                0 <= k < i ==> (#[trigger] rows[k]).deep_view() == without_cell(
                    old_rows[k],
                    column_index as int,
                ),
        decreases data.rows.len() - i,
    {
        let mut row = data.rows[i].clone();
        assert(row.deep_view() =~= old_rows[i as int]);
        if column_index < row.len() {
            let ghost full = row.deep_view();
            row.remove(column_index);
            assert(row.deep_view() =~= full.remove(column_index as int));
        }
        rows.push(row);
        i += 1;
    }
    assert(rows.deep_view() =~= Seq::new(
        old_rows.len(),
        |i: int| without_cell(old_rows[i], column_index as int),
    ));
    Ok(CsvTable { headers: data.headers, rows })
}

/// Gives the column at `column_index` the header `new_name`.
pub fn rename_column(data: CsvTable, column_index: usize, new_name: String) -> (r: Result<
    CsvTable,
    EditError,
>)
    ensures
        if column_index >= data.headers.len() {
            edit_view(r) == Err::<CsvTableView, EditError>(EditError::InvalidColumnIndex)
        } else {
            edit_view(r) == Ok::<CsvTableView, EditError>(
                CsvTableView {
                    headers: data.headers.deep_view().update(column_index as int, new_name@),
                    rows: data.rows.deep_view(),
                },
            )
        },
{
    let mut data = data;
    let ghost old_headers = data.headers.deep_view();
    if column_index >= data.headers.len() {
        return Err(EditError::InvalidColumnIndex);
    }
    data.headers.set(column_index, new_name);
    assert(data.headers.deep_view() =~= old_headers.update(column_index as int, new_name@));
    Ok(data)
}

/// A row of empty cells, one for each header.
pub open spec fn empty_row(width: nat) -> Seq<Seq<char>> {
    Seq::new(width, |i: int| Seq::<char>::empty())
}

/// Puts a row of empty cells in at `row_index`, or at the end where no
/// index is given.
pub fn add_row(data: CsvTable, row_index: Option<usize>) -> (r: Result<CsvTable, EditError>)
    ensures
        ({
            let p = position_or_end(row_index, data.rows.len() as nat);
            if p > data.rows.len() {
                edit_view(r) == Err::<CsvTableView, EditError>(EditError::InvalidRowPosition)
            } else {
                edit_view(r) == Ok::<CsvTableView, EditError>(
                    CsvTableView {
                        headers: data.headers.deep_view(),
                        rows: data.rows.deep_view().insert(
                            p,
                            empty_row(data.headers.len() as nat),
                        ),
                    },
                )
            }
        }),
{
    let mut data = data;
    let ghost old_rows = data.rows.deep_view();
    let mut new_row: Vec<String> = Vec::new();
    fill_row(&mut new_row, data.headers.len());
    assert(new_row.deep_view() =~= empty_row(data.headers.len() as nat));
    let position: usize = match row_index {
        Some(p) => p,
        None => data.rows.len(),
    };
    if position > data.rows.len() {
        return Err(EditError::InvalidRowPosition);
    }
    data.rows.insert(position, new_row);
    assert(data.rows.deep_view() =~= old_rows.insert(
        position as int,
        empty_row(data.headers.len() as nat),
    ));
    Ok(data)
}

/// Removes the row at `row_index`.
pub fn delete_row(data: CsvTable, row_index: usize) -> (r: Result<CsvTable, EditError>)
    ensures
        if row_index >= data.rows.len() {
            edit_view(r) == Err::<CsvTableView, EditError>(EditError::InvalidRowIndex)
        } else {
            edit_view(r) == Ok::<CsvTableView, EditError>(
                CsvTableView {
                    headers: data.headers.deep_view(),
                    rows: data.rows.deep_view().remove(row_index as int),
                },
            )
        },
{
    let mut data = data;
    let ghost old_rows = data.rows.deep_view();
    if row_index >= data.rows.len() {
        return Err(EditError::InvalidRowIndex);
    }
    data.rows.remove(row_index);
    assert(data.rows.deep_view() =~= old_rows.remove(row_index as int));
    Ok(data)
}

/// Puts a copy of the row at `row_index` in behind it.
pub fn duplicate_row(data: CsvTable, row_index: usize) -> (r: Result<CsvTable, EditError>)
    ensures
        if row_index >= data.rows.len() {
            edit_view(r) == Err::<CsvTableView, EditError>(EditError::InvalidRowIndex)
        } else {
            edit_view(r) == Ok::<CsvTableView, EditError>(
                CsvTableView {
                    headers: data.headers.deep_view(),
                    rows: data.rows.deep_view().insert(
                        row_index + 1,
                        data.rows.deep_view()[row_index as int],
                    ),
                },
            )
        },
{
    let mut data = data;
    let ghost old_rows = data.rows.deep_view();
    if row_index >= data.rows.len() {
        return Err(EditError::InvalidRowIndex);
    }
    let copy = data.rows[row_index].clone();
    assert(copy.deep_view() =~= old_rows[row_index as int]);
    data.rows.insert(row_index + 1, copy);
    assert(data.rows.deep_view() =~= old_rows.insert(row_index + 1, old_rows[row_index as int]));
    Ok(data)
}

/// Moves the row at `from_index` to before the row that is at `to_index`.
pub fn move_row(data: CsvTable, from_index: usize, to_index: usize) -> (r: Result<
    CsvTable,
    EditError,
>)
    ensures
        if from_index >= data.rows.len() || to_index > data.rows.len() {
            edit_view(r) == Err::<CsvTableView, EditError>(EditError::InvalidRowMove)
        } else if from_index == to_index {
            edit_view(r) == Ok::<CsvTableView, EditError>(data.deep_view())
        } else {
            edit_view(r) == Ok::<CsvTableView, EditError>(
                CsvTableView {
                    headers: data.headers.deep_view(),
                    rows: data.rows.deep_view().remove(from_index as int).insert(
                        landing(from_index as int, to_index as int),
                        data.rows.deep_view()[from_index as int],
                    ),
                },
            )
        },
{
    let mut data = data;
    let ghost old_rows = data.rows.deep_view();
    if from_index >= data.rows.len() || to_index > data.rows.len() {
        return Err(EditError::InvalidRowMove);
    }
    if from_index == to_index {
        return Ok(data);
    }
    let row = data.rows.remove(from_index);
    assert(data.rows.deep_view() =~= old_rows.remove(from_index as int));
    let insert_index: usize = if to_index > from_index {
        to_index - 1
    } else {
        to_index
    };
    let ghost without = data.rows.deep_view();
    data.rows.insert(insert_index, row);
    assert(data.rows.deep_view() =~= without.insert(insert_index as int, old_rows[from_index as int]));
    Ok(data)
}

/// Moves the column at `from_index` to before the column that is at
/// `to_index`.
pub fn move_column(data: CsvTable, from_index: usize, to_index: usize) -> (r: Result<
    CsvTable,
    EditError,
>)
    ensures
        if from_index >= data.headers.len() || to_index > data.headers.len() {
            edit_view(r) == Err::<CsvTableView, EditError>(EditError::InvalidColumnMove)
        } else if from_index == to_index {
            edit_view(r) == Ok::<CsvTableView, EditError>(data.deep_view())
        } else {
            edit_view(r) == Ok::<CsvTableView, EditError>(
                CsvTableView {
                    headers: data.headers.deep_view().remove(from_index as int).insert(
                        landing(from_index as int, to_index as int),
                        data.headers.deep_view()[from_index as int],
                    ),
                    rows: Seq::new(
                        data.rows.len() as nat,
                        |i: int|
                            with_moved_cell(
                                data.rows.deep_view()[i],
                                from_index as int,
                                landing(from_index as int, to_index as int),
                            ),
                    ),
                },
            )
        },
{
    let mut data = data;
    let ghost old_headers = data.headers.deep_view();
    let ghost old_rows = data.rows.deep_view();
    if from_index >= data.headers.len() || to_index > data.headers.len() {
        return Err(EditError::InvalidColumnMove);
    }
    if from_index == to_index {
        return Ok(data);
    }
    let insert_index: usize = if to_index > from_index {
        to_index - 1
    } else {
        to_index
    };
    let header = data.headers.remove(from_index);
    assert(data.headers.deep_view() =~= old_headers.remove(from_index as int));
    let ghost without = data.headers.deep_view();
    data.headers.insert(insert_index, header);
    assert(data.headers.deep_view() =~= without.insert(
        insert_index as int,
        old_headers[from_index as int],
    ));
    let mut rows: Vec<Vec<String>> = Vec::new();
    let mut i: usize = 0;
    while i < data.rows.len()
        invariant
            i <= data.rows.len(),
            insert_index < usize::MAX,
            data.rows.deep_view() == old_rows,
            rows.len() == i,
            forall|k: int|
                0 <= k < i ==> (#[trigger] rows[k]).deep_view() == with_moved_cell(
                    old_rows[k],
                    from_index as int,
                    insert_index as int,
                ),
        decreases data.rows.len() - i,
    {
        let mut row = data.rows[i].clone();
        assert(row.deep_view() =~= old_rows[i as int]);
        if from_index < row.len() {
            let ghost full = row.deep_view();
            let moved = row.remove(from_index);
            assert(row.deep_view() =~= full.remove(from_index as int));
            fill_row(&mut row, insert_index + 1);
            let ghost wide = row.deep_view();
            row.insert(insert_index, moved);
            assert(row.deep_view() =~= wide.insert(insert_index as int, full[from_index as int]));
        }
        rows.push(row);
        i += 1;
    }
    assert(rows.deep_view() =~= Seq::new(
        old_rows.len(),
        |i: int| with_moved_cell(old_rows[i], from_index as int, insert_index as int),
    ));
    Ok(CsvTable { headers: data.headers, rows })
}

} // verus!
