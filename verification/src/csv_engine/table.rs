//! A table as rows of cells, and named parameters of an operation.

use vstd::prelude::*;
use crate::text::str_eq;

verus! {

/// The cell in row `row` and column `col`, where the row is that long.
pub open spec fn cell(data: Seq<Seq<Seq<char>>>, row: int, col: int) -> Option<Seq<char>> {
    if 0 <= row < data.len() && 0 <= col < data[row].len() {
        Some(data[row][col])
    } else {
        None
    }
}

/// The name of column `col`; empty where there is no such header.
pub open spec fn header_name(headers: Seq<Seq<char>>, col: int) -> Seq<char> {
    if 0 <= col < headers.len() {
        headers[col]
    } else {
        Seq::empty()
    }
}

/// The value of the parameter `key` among the first `upto` parameters: that
/// of the last of them with this name.
pub open spec fn param_upto(params: Seq<(Seq<char>, Seq<char>)>, key: Seq<char>, upto: int) -> Option<
    Seq<char>,
>
    decreases upto,
{
    if upto <= 0 || upto > params.len() {
        None
    } else if params[upto - 1].0 == key {
        Some(params[upto - 1].1)
    } else {
        param_upto(params, key, upto - 1)
    }
}

/// The value of the parameter `key`. A later parameter replaces an earlier
/// one of the same name.
pub open spec fn param(params: Seq<(Seq<char>, Seq<char>)>, key: Seq<char>) -> Option<Seq<char>> {
    param_upto(params, key, params.len() as int)
}

/// The view of an optional string.
pub open spec fn opt_string_view(o: Option<&String>) -> Option<Seq<char>> {
    match o {
        Some(s) => Some(s@),
        None => None,
    }
}

/// The cell in row `row` and column `col`.
pub fn get_cell<'a>(data: &'a [Vec<String>], row: usize, col: usize) -> (r: Option<&'a String>)
    ensures
        opt_string_view(r) == cell(data.deep_view(), row as int, col as int),
{
    if row < data.len() && col < data[row].len() {
        Some(&data[row][col])
    } else {
        None
    }
}

/// The name of column `col`.
pub fn get_header(headers: &[String], col: usize) -> (name: String)
    ensures
        name@ == header_name(headers.deep_view(), col as int),
{
    if col < headers.len() {
        headers[col].clone()
    } else {
        String::new()
    }
}

/// The value of the parameter `key`.
pub fn get_param<'a>(params: &'a Vec<(String, String)>, key: &str) -> (r: Option<&'a String>)
    ensures
        opt_string_view(r) == param(params.deep_view(), key@),
{
    let mut upto: usize = params.len();
    while upto > 0
        invariant
            upto <= params.len(),
            param(params.deep_view(), key@) == param_upto(params.deep_view(), key@, upto as int),
        decreases upto,
    {
        if str_eq(params[upto - 1].0.as_str(), key) {
            return Some(&params[upto - 1].1);
        }
        upto -= 1;
    }
    None
}

} // verus!
