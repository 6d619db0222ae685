//! Text as sequences of characters: searching, trimming and line splitting.
//!
//! Every function here states its result over `Seq<char>`, the view of `str`
//! and `String`, so that callers can reason about message texts exactly.

use vstd::prelude::*;
use vstd::string::*;

verus! {

/// Whether `c` has the Unicode `White_Space` property: the controls from
/// tab to carriage return, the space, next line, the no-break spaces, the
/// Ogham space mark, the spaces of fixed width, the line and the paragraph
/// separator, the mathematical and the ideographic space.
pub open spec fn char_is_whitespace(c: char) -> bool {
    let n: u32 = c as u32;
    ||| 0x09 <= n <= 0x0D
    ||| n == 0x20
    ||| n == 0x85
    ||| n == 0xA0
    ||| n == 0x1680
    ||| 0x2000 <= n <= 0x200A
    ||| n == 0x2028
    ||| n == 0x2029
    ||| n == 0x202F
    ||| n == 0x205F
    ||| n == 0x3000
}

/// `s` in lower case.
pub uninterp spec fn lowercase(s: Seq<char>) -> Seq<char>;

/// `s` in upper case.
pub uninterp spec fn uppercase(s: Seq<char>) -> Seq<char>;

/// Whether `c` is a numeric character of Unicode.
pub uninterp spec fn char_is_numeric(c: char) -> bool;

/// `needle` occurs in `hay` starting at index `at`.
pub open spec fn matches_at(hay: Seq<char>, needle: Seq<char>, at: int) -> bool {
    &&& 0 <= at
    &&& at + needle.len() <= hay.len()
    &&& hay.subrange(at, at + needle.len()) == needle
}

/// `needle` occurs somewhere in `hay`.
pub open spec fn contains(hay: Seq<char>, needle: Seq<char>) -> bool {
    exists|at: int| matches_at(hay, needle, at)
}

/// `hay` begins with `needle`.
pub open spec fn starts_with(hay: Seq<char>, needle: Seq<char>) -> bool {
    matches_at(hay, needle, 0)
}

/// `s` without its leading whitespace.
pub open spec fn skip_whitespace(s: Seq<char>) -> Seq<char>
    decreases s.len(),
{
    if s.len() > 0 && char_is_whitespace(s[0]) {
        skip_whitespace(s.drop_first())
    } else {
        s
    }
}

/// `s` without its trailing whitespace.
pub open spec fn drop_trailing_whitespace(s: Seq<char>) -> Seq<char>
    decreases s.len(),
{
    if s.len() > 0 && char_is_whitespace(s.last()) {
        drop_trailing_whitespace(s.drop_last())
    } else {
        s
    }
}

/// `s` without leading and trailing whitespace.
pub open spec fn trimmed(s: Seq<char>) -> Seq<char> {
    drop_trailing_whitespace(skip_whitespace(s))
}

/// `s` holds nothing but whitespace.
pub open spec fn is_blank(s: Seq<char>) -> bool {
    trimmed(s).len() == 0
}

/// A line without the carriage return that preceded its line feed.
pub open spec fn strip_cr(line: Seq<char>) -> Seq<char> {
    if line.len() > 0 && line.last() == '\r' {
        line.drop_last()
    } else {
        line
    }
}

/// The lines of `s` from index `at` on, where the line being read began at
/// `start`. A line ends at a line feed; a carriage return just before that
/// line feed belongs to the line ending. Text after the last line feed is a
/// line of its own unless it is empty.
pub open spec fn lines_scan(s: Seq<char>, at: int, start: int) -> Seq<Seq<char>>
    decreases s.len() - at,
{
    if at >= s.len() {
        if start < s.len() {
            seq![s.subrange(start, s.len() as int)]
        } else {
            Seq::empty()
        }
    } else if s[at] == '\n' {
        seq![strip_cr(s.subrange(start, at))] + lines_scan(s, at + 1, at + 1)
    } else {
        lines_scan(s, at + 1, start)
    }
}

/// The lines of `s`, without their line endings.
pub open spec fn lines_of(s: Seq<char>) -> Seq<Seq<char>> {
    lines_scan(s, 0, 0)
}

/// The views of the elements of `s`.
pub open spec fn views<T: View>(s: Seq<T>) -> Seq<T::V> {
    Seq::new(s.len(), |i: int| s[i]@)
}

/// `parts` joined with `sep` between neighbours.
pub open spec fn joined(parts: Seq<Seq<char>>, sep: Seq<char>) -> Seq<char>
    decreases parts.len(),
{
    if parts.len() == 0 {
        Seq::empty()
    } else if parts.len() == 1 {
        parts[0]
    } else {
        joined(parts.drop_last(), sep) + sep + parts.last()
    }
}

/// Whether `c` has the `White_Space` property, as `char::is_whitespace`
/// tells it.
pub(crate) fn is_whitespace(c: char) -> (b: bool)
    ensures
        b == char_is_whitespace(c),
{
    let n: u32 = c as u32;
    (0x09 <= n && n <= 0x0D) || n == 0x20 || n == 0x85 || n == 0xA0 || n == 0x1680 || (0x2000 <= n
        && n <= 0x200A) || n == 0x2028 || n == 0x2029 || n == 0x202F || n == 0x205F || n == 0x3000
}

/// `str::to_lowercase`: the lower case of a text depends on the text alone.
#[verifier::external_body]
pub(crate) fn lower(s: &str) -> (r: String)
    ensures
        r@ == lowercase(s@),
{
    s.to_lowercase()
}

/// `str::to_uppercase`: the upper case of a text depends on the text alone.
#[verifier::external_body]
pub(crate) fn upper(s: &str) -> (r: String)
    ensures
        r@ == uppercase(s@),
{
    s.to_uppercase()
}

/// `char::is_numeric`: the result is a fixed property of the character.
#[verifier::external_body]
pub(crate) fn is_numeric(c: char) -> (b: bool)
    ensures
        b == char_is_numeric(c),
{
    c.is_numeric()
}

/// `String::push`: appends one character.
#[verifier::external_body]
pub(crate) fn push_char(s: &mut String, c: char)
    ensures
        final(s)@ == old(s)@.push(c),
{
    s.push(c)
}

/// The characters of `s`, in order.
pub fn to_chars(s: &str) -> (v: Vec<char>)
    ensures
        v@ == s@,
{
    let mut v: Vec<char> = Vec::new();
    for c in it: s.chars()
        invariant
            v@ == it.seq().take(it.index()),
            it.seq() == s@,
    {
        v.push(c);
    }
    v
}

/// The string made of the characters `v[from..to]`.
pub fn string_of_range(v: &Vec<char>, from: usize, to: usize) -> (s: String)
    requires
        from <= to <= v.len(),
    ensures
        s@ == v@.subrange(from as int, to as int),
{
    let mut s = String::new();
    let mut i: usize = from;
    while i < to
        invariant
            from <= i <= to <= v.len(),
            s@ == v@.subrange(from as int, i as int),
        decreases to - i,
    {
        push_char(&mut s, v[i]);
        i += 1;
        assert(s@ =~= v@.subrange(from as int, i as int));
    }
    s
}

/// The string made of the characters of `v`.
pub fn string_of(v: &Vec<char>) -> (s: String)
    ensures
        s@ == v@,
{
    let s = string_of_range(v, 0, v.len());
    assert(v@.subrange(0, v.len() as int) =~= v@);
    s
}

/// Whether `needle` occurs in `hay` at index `at`.
pub fn chars_match_at(hay: &Vec<char>, needle: &Vec<char>, at: usize) -> (b: bool)
    ensures
        b == matches_at(hay@, needle@, at as int),
{
    if at > hay.len() || needle.len() > hay.len() - at {
        return false;
    }
    let mut k: usize = 0;
    while k < needle.len()
        invariant
            at + needle.len() <= hay.len(),
            k <= needle.len(),
            forall|j: int| 0 <= j < k ==> hay@[at + j] == needle@[j],
        decreases needle.len() - k,
    {
        if hay[at + k] != needle[k] {
            assert(hay@.subrange(at as int, at + needle.len())[k as int] != needle@[k as int]);
            return false;
        }
        k += 1;
    }
    assert(hay@.subrange(at as int, at + needle.len()) =~= needle@);
    true
}

/// Whether `needle` occurs in `hay`.
pub fn chars_contain(hay: &Vec<char>, needle: &Vec<char>) -> (b: bool)
    ensures
        b == contains(hay@, needle@),
{
    if needle.len() > hay.len() {
        return false;
    }
    if needle.len() == 0 {
        assert(hay@.subrange(0, 0) =~= needle@);
        assert(matches_at(hay@, needle@, 0));
        return true;
    }
    let last: usize = hay.len() - needle.len();
    let mut i: usize = 0;
    while i <= last
        invariant
            last == hay.len() - needle.len(),
            needle.len() > 0,
            i <= last + 1,
            forall|j: int| 0 <= j < i ==> !matches_at(hay@, needle@, j),
        decreases last + 1 - i,
    {
        if chars_match_at(hay, needle, i) {
            return true;
        }
        i += 1;
    }
    false
}

/// Whether `hay` begins with `needle`.
pub fn chars_start_with(hay: &Vec<char>, needle: &Vec<char>) -> (b: bool)
    ensures
        b == starts_with(hay@, needle@),
{
    chars_match_at(hay, needle, 0)
}

/// Whether two texts hold the same characters.
pub fn chars_eq(a: &Vec<char>, b: &Vec<char>) -> (same: bool)
    ensures
        same == (a@ == b@),
{
    if a.len() != b.len() {
        return false;
    }
    let same = chars_match_at(a, b, 0);
    assert(a@.subrange(0, a.len() as int) =~= a@);
    same
}

/// Whether `needle` occurs in `hay`.
pub fn str_contains(hay: &str, needle: &str) -> (b: bool)
    ensures
        b == contains(hay@, needle@),
{
    let h = to_chars(hay);
    let n = to_chars(needle);
    chars_contain(&h, &n)
}

/// Whether two strings hold the same characters.
pub fn str_eq(a: &str, b: &str) -> (same: bool)
    ensures
        same == (a@ == b@),
{
    let x = to_chars(a);
    let y = to_chars(b);
    chars_eq(&x, &y)
}

/// The bounds `(from, to)` of `v` without leading and trailing whitespace.
pub fn trim_bounds(v: &Vec<char>) -> (r: (usize, usize))
    ensures
        r.0 <= r.1 <= v.len(),
        v@.subrange(r.0 as int, r.1 as int) == trimmed(v@),
{
    let n: usize = v.len();
    let mut a: usize = 0;
    assert(v@.subrange(0, n as int) =~= v@);
    while a < n && is_whitespace(v[a])
        invariant
            a <= n == v.len(),
            skip_whitespace(v@) == skip_whitespace(v@.subrange(a as int, n as int)),
        decreases n - a,
    {
        assert(v@.subrange(a as int, n as int).drop_first() =~= v@.subrange(a + 1, n as int));
        a += 1;
    }
    let ghost rest = v@.subrange(a as int, n as int);
    assert(skip_whitespace(v@) == rest);
    let mut b: usize = n;
    while b > a && is_whitespace(v[b - 1])
        invariant
            a <= b <= n == v.len(),
            drop_trailing_whitespace(rest) == drop_trailing_whitespace(
                v@.subrange(a as int, b as int),
            ),
        decreases b - a,
    {
        assert(v@.subrange(a as int, b as int).drop_last() =~= v@.subrange(a as int, b - 1));
        b -= 1;
    }
    (a, b)
}

/// `s` without leading and trailing whitespace.
pub fn trim(s: &str) -> (r: String)
    ensures
        r@ == trimmed(s@),
{
    let v = to_chars(s);
    let (a, b) = trim_bounds(&v);
    string_of_range(&v, a, b)
}

/// Whether `s` holds nothing but whitespace.
pub fn str_is_blank(s: &str) -> (b: bool)
    ensures
        b == is_blank(s@),
{
    let v = to_chars(s);
    let (a, b) = trim_bounds(&v);
    a == b
}

/// The lines of `s`, without their line endings.
pub fn split_lines(s: &str) -> (lines: Vec<Vec<char>>)
    ensures
        views(lines@) == lines_of(s@),
{
    let v = to_chars(s);
    let n: usize = v.len();
    let mut lines: Vec<Vec<char>> = Vec::new();
    let mut start: usize = 0;
    let mut i: usize = 0;
    while i < n
        invariant
            start <= i <= n == v.len(),
            v@ == s@,
            lines_of(s@) == views(lines@) + lines_scan(v@, i as int, start as int),
        decreases n - i,
    {
        if v[i] == '\n' {
            let end: usize = if i > start && v[i - 1] == '\r' {
                i - 1
            } else {
                i
            };
            assert(v@.subrange(start as int, end as int) =~= strip_cr(
                v@.subrange(start as int, i as int),
            ));
            let line = chars_of_range(&v, start, end);
            let ghost before = views(lines@);
            lines.push(line);
            assert(views(lines@) =~= before + seq![line@]);
            start = i + 1;
        }
        i += 1;
    }
    if start < n {
        let line = chars_of_range(&v, start, n);
        let ghost before = views(lines@);
        lines.push(line);
        assert(views(lines@) =~= before + seq![line@]);
    }
    lines
}

/// A copy of the characters `v[from..to]`.
pub fn chars_of_range(v: &Vec<char>, from: usize, to: usize) -> (r: Vec<char>)
    requires
        from <= to <= v.len(),
    ensures
        r@ == v@.subrange(from as int, to as int),
{
    let mut r: Vec<char> = Vec::new();
    let mut i: usize = from;
    while i < to
        invariant
            from <= i <= to <= v.len(),
            r@ == v@.subrange(from as int, i as int),
        decreases to - i,
    {
        r.push(v[i]);
        i += 1;
        assert(r@ =~= v@.subrange(from as int, i as int));
    }
    r
}

/// The view of an optional string.
pub open spec fn opt_view(o: Option<String>) -> Option<Seq<char>> {
    match o {
        Some(s) => Some(s@),
        None => None,
    }
}

/// `parts` joined with `sep` between neighbours.
pub fn join_chars(parts: &Vec<Vec<char>>, sep: &str) -> (s: String)
    ensures
        s@ == joined(views(parts@), sep@),
{
    let mut out = String::new();
    let mut k: usize = 0;
    assert(views(parts@).take(0) =~= Seq::<Seq<char>>::empty());
    while k < parts.len()
        invariant
            k <= parts.len(),
            out@ == joined(views(parts@).take(k as int), sep@),
        decreases parts.len() - k,
    {
        let ghost before = out@;
        if k > 0 {
            out.append(sep);
        }
        let piece = string_of(&parts[k]);
        out.append(piece.as_str());
        proof {
            let next = views(parts@).take(k + 1);
            assert(next.drop_last() =~= views(parts@).take(k as int));
            assert(next.last() == parts@[k as int]@);
            if k == 0 {
                assert(out@ =~= parts@[0]@);
            }
        }
        k += 1;
    }
    assert(views(parts@).take(parts.len() as int) =~= views(parts@));
    out
}

/// The character of the decimal digit `d`.
pub open spec fn digit_char(d: int) -> char {
    if d == 0 {
        '0'
    } else if d == 1 {
        '1'
    } else if d == 2 {
        '2'
    } else if d == 3 {
        '3'
    } else if d == 4 {
        '4'
    } else if d == 5 {
        '5'
    } else if d == 6 {
        '6'
    } else if d == 7 {
        '7'
    } else if d == 8 {
        '8'
    } else {
        '9'
    }
}

/// The value of a decimal digit; nothing for any other character.
pub open spec fn digit_value(c: char) -> Option<int> {
    if c == '0' {
        Some(0)
    } else if c == '1' {
        Some(1)
    } else if c == '2' {
        Some(2)
    } else if c == '3' {
        Some(3)
    } else if c == '4' {
        Some(4)
    } else if c == '5' {
        Some(5)
    } else if c == '6' {
        Some(6)
    } else if c == '7' {
        Some(7)
    } else if c == '8' {
        Some(8)
    } else if c == '9' {
        Some(9)
    } else {
        None
    }
}

/// `n` in decimal digits, without leading zeros.
pub open spec fn decimal(n: nat) -> Seq<char>
    decreases n,
{
    if n < 10 {
        seq![digit_char(n as int)]
    } else {
        decimal(n / 10).push(digit_char((n % 10) as int))
    }
}

/// Whether `s` is made of decimal digits only.
pub open spec fn all_digits(s: Seq<char>) -> bool {
    forall|i: int| 0 <= i < s.len() ==> digit_value(#[trigger] s[i]) is Some
}

/// The number that the decimal digits `s` write.
pub open spec fn number(s: Seq<char>) -> nat
    decreases s.len(),
{
    if s.len() == 0 {
        0
    } else {
        match digit_value(s.last()) {
            Some(d) => number(s.drop_last()) * 10 + d as nat,
            None => number(s.drop_last()) * 10,
        }
    }
}

/// `s` without a leading plus sign.
pub open spec fn unsigned_body(s: Seq<char>) -> Seq<char> {
    if s.len() > 0 && s[0] == '+' {
        s.drop_first()
    } else {
        s
    }
}

/// The number that `s` writes, where it is at most `limit`: decimal digits,
/// at least one, after an optional plus sign.
pub open spec fn parsed_below(s: Seq<char>, limit: nat) -> Option<nat> {
    let body = unsigned_body(s);
    if body.len() > 0 && all_digits(body) && number(body) <= limit {
        Some(number(body))
    } else {
        None
    }
}

/// The index that `s` writes: decimal digits, at least one, after an
/// optional plus sign, with a value in the machine's range.
pub open spec fn parsed_usize(s: Seq<char>) -> Option<usize> {
    match parsed_below(s, usize::MAX as nat) {
        Some(n) => Some(n as usize),
        None => None,
    }
}

/// The number below 2^64 that `s` writes: decimal digits, at least one,
/// after an optional plus sign.
pub open spec fn parsed_u64(s: Seq<char>) -> Option<u64> {
    match parsed_below(s, u64::MAX as nat) {
        Some(n) => Some(n as u64),
        None => None,
    }
}

/// The character of the decimal digit `d`.
pub fn digit_to_char(d: usize) -> (c: char)
    requires
        d < 10,
    ensures
        c == digit_char(d as int),
{
    if d == 0 {
        '0'
    } else if d == 1 {
        '1'
    } else if d == 2 {
        '2'
    } else if d == 3 {
        '3'
    } else if d == 4 {
        '4'
    } else if d == 5 {
        '5'
    } else if d == 6 {
        '6'
    } else if d == 7 {
        '7'
    } else if d == 8 {
        '8'
    } else {
        '9'
    }
}

/// The value of a decimal digit.
pub fn char_to_digit(c: char) -> (d: Option<usize>)
    ensures
        match d {
            Some(v) => digit_value(c) == Some(v as int) && v < 10,
            None => digit_value(c) is None,
        },
{
    if c == '0' {
        Some(0)
    } else if c == '1' {
        Some(1)
    } else if c == '2' {
        Some(2)
    } else if c == '3' {
        Some(3)
    } else if c == '4' {
        Some(4)
    } else if c == '5' {
        Some(5)
    } else if c == '6' {
        Some(6)
    } else if c == '7' {
        Some(7)
    } else if c == '8' {
        Some(8)
    } else if c == '9' {
        Some(9)
    } else {
        None
    }
}

/// Appends `n` in decimal digits to `out`.
pub fn push_decimal(out: &mut String, n: usize)
    ensures
        final(out)@ == old(out)@ + decimal(n as nat),
    decreases n,
{
    if n >= 10 {
        push_decimal(out, n / 10);
    }
    push_char(out, digit_to_char(n % 10));
    proof {
        if n >= 10 {
            assert(final(out)@ =~= old(out)@ + decimal(n as nat));
        } else {
            assert(final(out)@ =~= old(out)@ + decimal(n as nat));
        }
    }
}

/// `n` in decimal digits.
pub fn usize_to_string(n: usize) -> (s: String)
    ensures
        s@ == decimal(n as nat),
{
    let mut s = String::new();
    push_decimal(&mut s, n);
    assert(s@ =~= decimal(n as nat));
    s
}

/// A number written in digits is at least the number that any of its
/// beginnings writes.
pub proof fn lemma_number_grows(s: Seq<char>, upto: int)
    requires
        0 <= upto <= s.len(),
    ensures
        number(s.subrange(0, upto)) <= number(s),
    decreases s.len(),
{
    if upto == s.len() {
        assert(s.subrange(0, upto) =~= s);
    } else {
        lemma_number_grows(s.drop_last(), upto);
        assert(s.drop_last().subrange(0, upto) =~= s.subrange(0, upto));
    }
}

/// The number that `s` writes, where it is at most `limit`.
pub fn parse_below(s: &str, limit: u64) -> (r: Option<u64>)
    ensures
        match r {
            Some(n) => parsed_below(s@, limit as nat) == Some(n as nat),
            None => parsed_below(s@, limit as nat) is None,
        },
{
    let v = to_chars(s);
    let from: usize = if v.len() > 0 && v[0] == '+' {
        1
    } else {
        0
    };
    let ghost body = unsigned_body(v@);
    assert(body =~= v@.subrange(from as int, v.len() as int));
    if from == v.len() {
        return None;
    }
    let mut acc: u64 = 0;
    let mut i: usize = from;
    assert(body.subrange(0, 0) =~= Seq::<char>::empty());
    while i < v.len()
        invariant
            from <= i <= v.len(),
            v@ == s@,
            body == unsigned_body(s@),
            body == v@.subrange(from as int, v.len() as int),
            all_digits(body.subrange(0, i - from)),
            acc == number(body.subrange(0, i - from)),
            acc <= limit,
        decreases v.len() - i,
    {
        let ghost prefix = body.subrange(0, i - from);
        let ghost next = body.subrange(0, i - from + 1);
        assert(next.drop_last() =~= prefix);
        assert(next.last() == v@[i as int]);
        match char_to_digit(v[i]) {
            None => {
                assert(digit_value(body[i - from]) is None);
                return None;
            },
            Some(d) => {
                proof {
                    lemma_number_grows(body, i - from + 1);
                }
                let digit: u64 = d as u64;
                if digit > limit || acc > (limit - digit) / 10 {
                    assert(number(next) > limit);
                    return None;
                }
                acc = acc * 10 + digit;
                assert forall|k: int| 0 <= k < next.len() implies digit_value(
                    #[trigger] next[k],
                ) is Some by {
                    if k < prefix.len() {
                        assert(next[k] == prefix[k]);
                    }
                }
            },
        }
        i += 1;
    }
    assert(body.subrange(0, body.len() as int) =~= body);
    Some(acc)
}

/// The index that `s` writes.
pub fn parse_usize(s: &str) -> (r: Option<usize>)
    ensures
        r == parsed_usize(s@),
{
    match parse_below(s, usize::MAX as u64) {
        Some(n) => Some(n as usize),
        None => None,
    }
}

/// The number below 2^64 that `s` writes.
pub fn parse_u64(s: &str) -> (r: Option<u64>)
    ensures
        r == parsed_u64(s@),
{
    parse_below(s, u64::MAX)
}

/// The first index at or after `from` at which `needle` occurs in `hay`.
pub open spec fn first_match_from(hay: Seq<char>, needle: Seq<char>, from: int) -> Option<int>
    decreases hay.len() - from,
{
    if from < 0 || from + needle.len() > hay.len() {
        None
    } else if matches_at(hay, needle, from) {
        Some(from)
    } else if from >= hay.len() {
        None
    } else {
        first_match_from(hay, needle, from + 1)
    }
}

/// The first index at which `needle` occurs in `hay`.
pub open spec fn first_match(hay: Seq<char>, needle: Seq<char>) -> Option<int> {
    first_match_from(hay, needle, 0)
}

/// The last index below `upto` at which `needle` occurs in `hay`.
pub open spec fn last_match_upto(hay: Seq<char>, needle: Seq<char>, upto: int) -> Option<int>
    decreases upto,
{
    if upto <= 0 {
        None
    } else if matches_at(hay, needle, upto - 1) {
        Some(upto - 1)
    } else {
        last_match_upto(hay, needle, upto - 1)
    }
}

/// The last index at which `needle` occurs in `hay`.
pub open spec fn last_match(hay: Seq<char>, needle: Seq<char>) -> Option<int> {
    last_match_upto(hay, needle, hay.len() as int + 1)
}

/// The first index at which `needle` occurs in `hay`.
pub fn find_first(hay: &Vec<char>, needle: &Vec<char>) -> (r: Option<usize>)
    ensures
        match r {
            Some(i) => first_match(hay@, needle@) == Some(i as int) && i + needle.len() <= hay.len(),
            None => first_match(hay@, needle@) is None,
        },
{
    if needle.len() > hay.len() {
        return None;
    }
    let last: usize = hay.len() - needle.len();
    let mut i: usize = 0;
    while i < last
        invariant
            i <= last,
            last == hay.len() - needle.len(),
            first_match(hay@, needle@) == first_match_from(hay@, needle@, i as int),
        decreases last - i,
    {
        if chars_match_at(hay, needle, i) {
            return Some(i);
        }
        i += 1;
    }
    if chars_match_at(hay, needle, last) {
        Some(last)
    } else {
        assert(first_match_from(hay@, needle@, last + 1) is None);
        None
    }
}

/// The last index at which `needle` occurs in `hay`.
pub fn find_last(hay: &Vec<char>, needle: &Vec<char>) -> (r: Option<usize>)
    ensures
        match r {
            Some(i) => last_match(hay@, needle@) == Some(i as int) && i + needle.len() <= hay.len(),
            None => last_match(hay@, needle@) is None,
        },
{
    if needle.len() > hay.len() {
        proof {
            lemma_no_match_beyond(hay@, needle@, hay.len() + 1, 0);
        }
        return None;
    }
    if needle.len() == 0 {
        assert(hay@.subrange(hay.len() as int, hay.len() as int) =~= needle@);
        return Some(hay.len());
    }
    let mut upto: usize = hay.len() - needle.len() + 1;
    proof {
        lemma_no_match_beyond(hay@, needle@, hay.len() + 1, upto as int);
    }
    while upto > 0
        invariant
            upto <= hay.len() - needle.len() + 1,
            needle.len() <= hay.len(),
            last_match(hay@, needle@) == last_match_upto(hay@, needle@, upto as int),
        decreases upto,
    {
        if chars_match_at(hay, needle, upto - 1) {
            return Some(upto - 1);
        }
        upto -= 1;
    }
    None
}

/// No match begins so late that the needle would reach beyond the text.
pub proof fn lemma_no_match_beyond(hay: Seq<char>, needle: Seq<char>, upto: int, floor: int)
    requires
        0 <= floor <= upto,
        floor + needle.len() > hay.len(),
    ensures
        last_match_upto(hay, needle, upto) == last_match_upto(hay, needle, floor),
    decreases upto - floor,
{
    if upto > floor {
        assert(!matches_at(hay, needle, upto - 1));
        lemma_no_match_beyond(hay, needle, upto - 1, floor);
    }
}

/// `parts` joined with `sep` between neighbours.
pub fn join_strings(parts: &Vec<String>, sep: &str) -> (s: String)
    ensures
        s@ == joined(parts.deep_view(), sep@),
{
    let mut out = String::new();
    let mut k: usize = 0;
    assert(parts.deep_view().take(0) =~= Seq::<Seq<char>>::empty());
    while k < parts.len()
        invariant
            k <= parts.len(),
            out@ == joined(parts.deep_view().take(k as int), sep@),
        decreases parts.len() - k,
    {
        if k > 0 {
            out.append(sep);
        }
        out.append(parts[k].as_str());
        proof {
            let next = parts.deep_view().take(k + 1);
            assert(next.drop_last() =~= parts.deep_view().take(k as int));
            assert(next.last() == parts@[k as int]@);
            if k == 0 {
                assert(out@ =~= parts@[0]@);
            }
        }
        k += 1;
    }
    assert(parts.deep_view().take(parts.len() as int) =~= parts.deep_view());
    out
}

/// Whether `c` is one of the letters `A` to `Z`.
pub open spec fn is_ascii_upper(c: char) -> bool {
    'A' <= c && c <= 'Z'
}

/// Whether two characters are the same, the case of the letters `a` to `z`
/// apart.
pub open spec fn same_letter(a: char, b: char) -> bool {
    a == b || (is_ascii_upper(a) && a as u32 + 32 == b as u32) || (is_ascii_upper(b) && b as u32
        + 32 == a as u32)
}

/// Whether two texts are the same, the case of the letters `a` to `z`
/// apart.
pub open spec fn same_ignoring_ascii_case(a: Seq<char>, b: Seq<char>) -> bool {
    a.len() == b.len() && forall|i: int| 0 <= i < a.len() ==> same_letter(#[trigger] a[i], b[i])
}

/// Whether two characters are the same, the case of the letters `a` to `z`
/// apart.
pub fn chars_same_letter(a: char, b: char) -> (same: bool)
    ensures
        same == same_letter(a, b),
{
    if a == b {
        return true;
    }
    let x: u32 = a as u32;
    let y: u32 = b as u32;
    ('A' <= a && a <= 'Z' && x + 32 == y) || ('A' <= b && b <= 'Z' && y + 32 == x)
}

/// Whether two texts are the same, the case of the letters `a` to `z`
/// apart.
pub fn eq_ignore_ascii_case(a: &Vec<char>, b: &Vec<char>) -> (same: bool)
    ensures
        same == same_ignoring_ascii_case(a@, b@),
{
    if a.len() != b.len() {
        return false;
    }
    let mut i: usize = 0;
    while i < a.len()
        invariant
            i <= a.len() == b.len(),
            forall|k: int| 0 <= k < i ==> same_letter(#[trigger] a@[k], b@[k]),
        decreases a.len() - i,
    {
        if !chars_same_letter(a[i], b[i]) {
            return false;
        }
        i += 1;
    }
    true
}

/// Where the run of digits that begins at `from` ends.
pub open spec fn digits_end(s: Seq<char>, from: int) -> int
    decreases s.len() - from,
{
    if from < 0 || from >= s.len() || digit_value(s[from]) is None {
        from
    } else {
        digits_end(s, from + 1)
    }
}

/// Whether `s` from `from` on is an exponent: `e` or `E`, an optional sign,
/// and digits up to the end, at least one.
pub open spec fn is_exponent(s: Seq<char>, from: int) -> bool {
    &&& 0 <= from < s.len()
    &&& (s[from] == 'e' || s[from] == 'E')
    &&& {
        let digits = if from + 1 < s.len() && (s[from + 1] == '+' || s[from + 1] == '-') {
            from + 2
        } else {
            from + 1
        };
        digits < s.len() && digits_end(s, digits) == s.len()
    }
}

/// Whether `s` from `from` on writes a number in decimal notation: digits,
/// with or without a point among them or at either end, at least one digit
/// in all, and after that nothing or an exponent.
pub open spec fn is_decimal_number(s: Seq<char>, from: int) -> bool {
    let whole_end = digits_end(s, from);
    if whole_end < s.len() && s[whole_end] == '.' {
        let fraction_end = digits_end(s, whole_end + 1);
        (whole_end > from || fraction_end > whole_end + 1) && (fraction_end == s.len()
            || is_exponent(s, fraction_end))
    } else {
        whole_end > from && (whole_end == s.len() || is_exponent(s, whole_end))
    }
}

/// Whether `s` writes a number with a fractional part as the standard
/// library reads it: an optional sign, and then `inf`, `infinity` or `nan`
/// in any case of the letters, or a number in decimal notation.
pub open spec fn is_float_text(s: Seq<char>) -> bool {
    let from: int = if s.len() > 0 && (s[0] == '+' || s[0] == '-') {
        1
    } else {
        0
    };
    let rest = s.subrange(from, s.len() as int);
    same_ignoring_ascii_case(rest, "inf"@) || same_ignoring_ascii_case(rest, "infinity"@)
        || same_ignoring_ascii_case(rest, "nan"@) || is_decimal_number(s, from)
}

/// Whether `s` writes an integer between -2^63 and 2^63 - 1: an optional
/// sign and digits, at least one.
pub open spec fn is_i64_text(s: Seq<char>) -> bool {
    let negative = s.len() > 0 && s[0] == '-';
    let body = if s.len() > 0 && (s[0] == '+' || s[0] == '-') {
        s.drop_first()
    } else {
        s
    };
    body.len() > 0 && all_digits(body) && number(body) <= (if negative {
        0x8000_0000_0000_0000nat
    } else {
        0x7fff_ffff_ffff_ffffnat
    })
}

/// Where the run of digits that begins at `from` ends.
pub fn skip_digits(s: &Vec<char>, from: usize) -> (end: usize)
    requires
        from <= s.len(),
    ensures
        from <= end <= s.len(),
        end == digits_end(s@, from as int),
{
    let mut end: usize = from;
    while end < s.len() && char_to_digit(s[end]).is_some()
        invariant
            from <= end <= s.len(),
            digits_end(s@, from as int) == digits_end(s@, end as int),
        decreases s.len() - end,
    {
        end += 1;
    }
    end
}

/// Whether `s` from `from` on is an exponent.
pub fn check_exponent(s: &Vec<char>, from: usize) -> (b: bool)
    requires
        from <= s.len(),
    ensures
        b == is_exponent(s@, from as int),
{
    if from >= s.len() {
        return false;
    }
    if s[from] != 'e' && s[from] != 'E' {
        return false;
    }
    let digits: usize = if from + 1 < s.len() && (s[from + 1] == '+' || s[from + 1] == '-') {
        from + 2
    } else {
        from + 1
    };
    if digits >= s.len() {
        return false;
    }
    skip_digits(s, digits) == s.len()
}

/// Whether `s` from `from` on writes a number in decimal notation.
pub fn check_decimal_number(s: &Vec<char>, from: usize) -> (b: bool)
    requires
        from <= s.len(),
    ensures
        b == is_decimal_number(s@, from as int),
{
    let whole_end = skip_digits(s, from);
    if whole_end < s.len() && s[whole_end] == '.' {
        let fraction_end = skip_digits(s, whole_end + 1);
        (whole_end > from || fraction_end > whole_end + 1) && (fraction_end == s.len()
            || check_exponent(s, fraction_end))
    } else {
        whole_end > from && (whole_end == s.len() || check_exponent(s, whole_end))
    }
}

/// Whether `s` writes a number with a fractional part as the standard
/// library reads it.
pub fn str_is_float(s: &str) -> (b: bool)
    ensures
        b == is_float_text(s@),
{
    let v = to_chars(s);
    let from: usize = if v.len() > 0 && (v[0] == '+' || v[0] == '-') {
        1
    } else {
        0
    };
    let rest = chars_of_range(&v, from, v.len());
    if eq_ignore_ascii_case(&rest, &to_chars("inf")) || eq_ignore_ascii_case(
        &rest,
        &to_chars("infinity"),
    ) || eq_ignore_ascii_case(&rest, &to_chars("nan")) {
        return true;
    }
    check_decimal_number(&v, from)
}

/// Whether `s` writes an integer between -2^63 and 2^63 - 1.
pub fn str_is_i64(s: &str) -> (b: bool)
    ensures
        b == is_i64_text(s@),
{
    let v = to_chars(s);
    let negative = v.len() > 0 && v[0] == '-';
    let from: usize = if v.len() > 0 && (v[0] == '+' || v[0] == '-') {
        1
    } else {
        0
    };
    let limit: u64 = if negative {
        0x8000_0000_0000_0000
    } else {
        0x7fff_ffff_ffff_ffff
    };
    let ghost body = v@.subrange(from as int, v.len() as int);
    assert(from == 1 ==> body =~= s@.drop_first());
    assert(from == 0 ==> body =~= s@);
    if from == v.len() {
        return false;
    }
    let mut acc: u64 = 0;
    let mut i: usize = from;
    assert(body.subrange(0, 0) =~= Seq::<char>::empty());
    while i < v.len()
        invariant
            from <= i <= v.len(),
            body == v@.subrange(from as int, v.len() as int),
            v@ == s@,
            negative == (s@.len() > 0 && s@[0] == '-'),
            body == (if s@.len() > 0 && (s@[0] == '+' || s@[0] == '-') {
                s@.drop_first()
            } else {
                s@
            }),
            limit == (if negative {
                0x8000_0000_0000_0000u64
            } else {
                0x7fff_ffff_ffff_ffffu64
            }),
            all_digits(body.subrange(0, i - from)),
            acc == number(body.subrange(0, i - from)),
            acc <= limit,
        decreases v.len() - i,
    {
        let ghost prefix = body.subrange(0, i - from);
        let ghost next = body.subrange(0, i - from + 1);
        assert(next.drop_last() =~= prefix);
        assert(next.last() == v@[i as int]);
        match char_to_digit(v[i]) {
            None => {
                assert(digit_value(body[i - from]) is None);
                return false;
            },
            Some(d) => {
                proof {
                    lemma_number_grows(body, i - from + 1);
                }
                let digit: u64 = d as u64;
                if acc > (limit - digit) / 10 {
                    assert(number(next) > limit);
                    return false;
                }
                acc = acc * 10 + digit;
                assert forall|k: int| 0 <= k < next.len() implies digit_value(
                    #[trigger] next[k],
                ) is Some by {
                    if k < prefix.len() {
                        assert(next[k] == prefix[k]);
                    }
                }
            },
        }
        i += 1;
    }
    assert(body.subrange(0, body.len() as int) =~= body);
    true
}

} // verus!
