use csv_light_editor::csv_engine::editing::{
    add_column, add_row, delete_column, delete_row, duplicate_row, move_column, move_row,
    rename_column, CsvTable, EditError,
};

fn strings(items: &[&str]) -> Vec<String> {
    items.iter().map(|s| s.to_string()).collect()
}

fn table(headers: &[&str], rows: &[&[&str]]) -> CsvTable {
    CsvTable { headers: strings(headers), rows: rows.iter().map(|r| strings(r)).collect() }
}

fn sample() -> CsvTable {
    table(&["a", "b", "c"], &[&["1", "2", "3"], &["4"], &["5", "6", "7", "8"]])
}

#[test]
fn columns_are_added() {
    assert_eq!(
        add_column(sample(), "x".to_string(), Some(1)),
        Ok(table(&["a", "x", "b", "c"], &[&["1", "", "2", "3"], &["4", ""], &["5", "", "6", "7", "8"]]))
    );
    assert_eq!(
        add_column(sample(), "x".to_string(), None),
        Ok(table(
            &["a", "b", "c", "x"],
            &[&["1", "2", "3", ""], &["4", "", "", ""], &["5", "6", "7", "", "8"]]
        ))
    );
    assert_eq!(add_column(sample(), "x".to_string(), Some(4)), Err(EditError::InvalidColumnPosition));
    let e = EditError::InvalidColumnPosition.to_app_error();
    assert_eq!((e.message.as_str(), e.code.as_str()), ("Invalid column position", "INVALID_POSITION"));
}

#[test]
fn columns_are_removed_and_renamed() {
    assert_eq!(
        delete_column(sample(), 1),
        Ok(table(&["a", "c"], &[&["1", "3"], &["4"], &["5", "7", "8"]]))
    );
    assert_eq!(delete_column(sample(), 3), Err(EditError::InvalidColumnIndex));
    assert_eq!(
        rename_column(sample(), 2, "z".to_string()).unwrap().headers,
        strings(&["a", "b", "z"])
    );
    assert_eq!(rename_column(sample(), 3, "z".to_string()), Err(EditError::InvalidColumnIndex));
    let e = EditError::InvalidColumnIndex.to_app_error();
    assert_eq!((e.message.as_str(), e.code.as_str()), ("Invalid column index", "INVALID_INDEX"));
}

#[test]
fn rows_are_added_removed_and_copied() {
    assert_eq!(
        add_row(sample(), Some(0)).unwrap().rows,
        vec![strings(&["", "", ""]), strings(&["1", "2", "3"]), strings(&["4"]), strings(&["5", "6", "7", "8"])]
    );
    assert_eq!(add_row(sample(), None).unwrap().rows[3], strings(&["", "", ""]));
    assert_eq!(add_row(sample(), Some(4)), Err(EditError::InvalidRowPosition));
    assert_eq!(
        delete_row(sample(), 1).unwrap().rows,
        vec![strings(&["1", "2", "3"]), strings(&["5", "6", "7", "8"])]
    );
    assert_eq!(delete_row(sample(), 3), Err(EditError::InvalidRowIndex));
    assert_eq!(
        duplicate_row(sample(), 1).unwrap().rows,
        vec![strings(&["1", "2", "3"]), strings(&["4"]), strings(&["4"]), strings(&["5", "6", "7", "8"])]
    );
    assert_eq!(duplicate_row(sample(), 3), Err(EditError::InvalidRowIndex));
    let e = EditError::InvalidRowPosition.to_app_error();
    assert_eq!((e.message.as_str(), e.code.as_str()), ("Invalid row position", "INVALID_POSITION"));
}

#[test]
fn rows_are_moved() {
    let rows = |t: CsvTable| t.rows.iter().map(|r| r[0].clone()).collect::<Vec<String>>();
    assert_eq!(rows(move_row(sample(), 0, 3).unwrap()), strings(&["4", "5", "1"]));
    assert_eq!(rows(move_row(sample(), 0, 2).unwrap()), strings(&["4", "1", "5"]));
    assert_eq!(rows(move_row(sample(), 2, 0).unwrap()), strings(&["5", "1", "4"]));
    assert_eq!(rows(move_row(sample(), 1, 1).unwrap()), strings(&["1", "4", "5"]));
    assert_eq!(rows(move_row(sample(), 1, 2).unwrap()), strings(&["1", "4", "5"]));
    assert_eq!(move_row(sample(), 3, 0), Err(EditError::InvalidRowMove));
    assert_eq!(move_row(sample(), 0, 4), Err(EditError::InvalidRowMove));
    let e = EditError::InvalidRowMove.to_app_error();
    assert_eq!(
        (e.message.as_str(), e.code.as_str()),
        ("Invalid row index for move operation", "INVALID_ROW_INDEX")
    );
}

#[test]
fn columns_are_moved() {
    assert_eq!(
        move_column(sample(), 0, 3),
        Ok(table(&["b", "c", "a"], &[&["2", "3", "1", ""], &["", "", "4", ""], &["6", "7", "5", "8"]]))
    );
    assert_eq!(
        move_column(sample(), 2, 0),
        Ok(table(&["c", "a", "b"], &[&["3", "1", "2"], &["4"], &["7", "5", "6", "8"]]))
    );
    assert_eq!(
        move_column(sample(), 0, 1),
        Ok(table(&["a", "b", "c"], &[&["1", "2", "3"], &["4", ""], &["5", "6", "7", "8"]]))
    );
    assert_eq!(move_column(sample(), 1, 1), Ok(sample()));
    assert_eq!(move_column(sample(), 3, 0), Err(EditError::InvalidColumnMove));
    assert_eq!(move_column(sample(), 0, 4), Err(EditError::InvalidColumnMove));
    let e = EditError::InvalidColumnMove.to_app_error();
    assert_eq!(
        (e.message.as_str(), e.code.as_str()),
        ("Invalid column index for move operation", "INVALID_COLUMN_INDEX")
    );
}
