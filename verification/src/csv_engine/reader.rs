//! What the reader of files decides from a sample of a file.

use vstd::prelude::*;
use crate::text::{lower, lowercase, str_eq};

verus! {

/// The encodings in which files are read.
#[derive(Clone, Copy, Debug, PartialEq, Eq, Structural)]
pub enum TextEncoding {
    Utf8,
    ShiftJis,
    EucJp,
    Gb18030,
}

/// The encoding for the name that the detection gave, letter case apart;
/// UTF-8 for a name that is not known.
pub open spec fn encoding_named(name: Seq<char>) -> TextEncoding {
    let n = lowercase(name);
    if n == "utf-8"@ || n == "ascii"@ {
        TextEncoding::Utf8
    } else if n == "shift_jis"@ || n == "shift-jis"@ || n == "sjis"@ {
        TextEncoding::ShiftJis
    } else if n == "euc-jp"@ || n == "eucjp"@ {
        TextEncoding::EucJp
    } else if n == "gb18030"@ || n == "gb2312"@ || n == "gbk"@ {
        TextEncoding::Gb18030
    } else {
        TextEncoding::Utf8
    }
}

/// How often the byte `b` occurs among the first `upto` bytes.
pub open spec fn occurrences(sample: Seq<u8>, b: u8, upto: int) -> nat
    decreases upto,
{
    if upto <= 0 {
        0
    } else if upto <= sample.len() && sample[upto - 1] == b {
        occurrences(sample, b, upto - 1) + 1
    } else {
        occurrences(sample, b, upto - 1)
    }
}

/// How often the byte `b` occurs in the sample.
pub open spec fn count_in(sample: Seq<u8>, b: u8) -> nat {
    occurrences(sample, b, sample.len() as int)
}

/// The delimiter of a sample: of the comma, the tab, the semicolon and the
/// bar the one that occurs most often, and of several such the first.
pub open spec fn delimiter_of(sample: Seq<u8>) -> u8 {
    let comma = count_in(sample, 44);
    let tab = count_in(sample, 9);
    let semicolon = count_in(sample, 59);
    let bar = count_in(sample, 124);
    if comma >= tab && comma >= semicolon && comma >= bar {
        44
    } else if tab >= semicolon && tab >= bar {
        9
    } else if semicolon >= bar {
        59
    } else {
        124
    }
}

/// The encoding for the name that the detection gave.
pub fn encoding_for(name: &str) -> (encoding: TextEncoding)
    ensures
        encoding == encoding_named(name@),
{
    let folded = lower(name);
    let n = folded.as_str();
    if str_eq(n, "utf-8") || str_eq(n, "ascii") {
        TextEncoding::Utf8
    } else if str_eq(n, "shift_jis") || str_eq(n, "shift-jis") || str_eq(n, "sjis") {
        TextEncoding::ShiftJis
    } else if str_eq(n, "euc-jp") || str_eq(n, "eucjp") {
        TextEncoding::EucJp
    } else if str_eq(n, "gb18030") || str_eq(n, "gb2312") || str_eq(n, "gbk") {
        TextEncoding::Gb18030
    } else {
        TextEncoding::Utf8
    }
}

/// How often the byte `b` occurs in the sample.
pub fn count_byte(sample: &[u8], b: u8) -> (n: usize)
    ensures
        n == count_in(sample@, b),
{
    let mut n: usize = 0;
    let mut i: usize = 0;
    while i < sample.len()
        invariant
            i <= sample.len(),
            n == occurrences(sample@, b, i as int),
            n <= i,
        decreases sample.len() - i,
    {
        if sample[i] == b {
            n += 1;
        }
        i += 1;
    }
    n
}

/// The delimiter of a sample of a file.
pub fn detect_delimiter(sample: &[u8]) -> (delimiter: u8)
    ensures
        delimiter == delimiter_of(sample@),
{
    let comma = count_byte(sample, 44);
    let tab = count_byte(sample, 9);
    let semicolon = count_byte(sample, 59);
    let bar = count_byte(sample, 124);
    if comma >= tab && comma >= semicolon && comma >= bar {
        44
    } else if tab >= semicolon && tab >= bar {
        9
    } else if semicolon >= bar {
        59
    } else {
        124
    }
}

} // verus!
