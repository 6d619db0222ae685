//! Regular expressions, through the `regex` crate.
//!
//! What a pattern means is the crate's business. Here a compiled pattern is
//! known by the text it was made from, and a search by whether that text has
//! a match in the haystack. Expressions are compiled here and nowhere else,
//! so that the pattern alone says what an expression matches.

use vstd::prelude::*;

verus! {

#[verifier::external_type_specification]
#[verifier::external_body]
pub struct ExRegex(regex::Regex);

/// The pattern that a compiled regular expression was made from.
pub uninterp spec fn compiled_from(re: regex::Regex) -> Seq<char>;

/// A regular expression, compiled from its pattern with the settings that
/// the `regex` crate starts from. Every value is made by [`compile`].
pub struct Pattern {
    re: regex::Regex,
}

/// The pattern that a regular expression was compiled from.
pub closed spec fn regex_source(p: Pattern) -> Seq<char> {
    compiled_from(p.re)
}

/// Whether `pattern` is accepted as a regular expression.
pub uninterp spec fn pattern_compiles(pattern: Seq<char>) -> bool;

/// Whether `pattern` has a match anywhere in `text`.
pub uninterp spec fn pattern_matches(pattern: Seq<char>, text: Seq<char>) -> bool;

/// `text` with every match of `pattern`, from left to right and without
/// overlap, replaced by what `replacement` expands to.
pub uninterp spec fn replaced_all(pattern: Seq<char>, text: Seq<char>, replacement: Seq<char>) -> Seq<
    char,
>;

/// What group `group` holds in the leftmost match of `pattern` in `text`:
/// nothing where there is no match, and nothing within where the group took
/// no part in the match.
pub uninterp spec fn first_capture(pattern: Seq<char>, text: Seq<char>, group: nat) -> Option<
    Option<Seq<char>>,
>;

/// What group `group` holds in each of the matches of `pattern` in `text`,
/// from left to right and without overlap; nothing where the group took no
/// part in a match.
pub uninterp spec fn all_captures(pattern: Seq<char>, text: Seq<char>, group: nat) -> Seq<
    Option<Seq<char>>,
>;

/// `regex::Regex::new`: whether a pattern is accepted depends on the pattern
/// alone; the compiled expression remembers the pattern.
#[verifier::external_body]
fn regex_new(pattern: &str) -> (r: Option<regex::Regex>)
    ensures
        r is Some <==> pattern_compiles(pattern@),
        r is Some ==> compiled_from(r->Some_0) == pattern@,
{
    regex::Regex::new(pattern).ok()
}

/// `regex::Regex::is_match`, for an expression that `Regex::new` made: true
/// if and only if the pattern has a match anywhere in `text`, which depends
/// on the pattern and the text alone.
#[verifier::external_body]
fn regex_is_match(re: &regex::Regex, text: &str) -> (b: bool)
    ensures
        b == pattern_matches(compiled_from(*re), text@),
{
    re.is_match(text)
}

/// `regex::Regex::as_str`: the pattern that the expression was made from.
#[verifier::external_body]
fn regex_as_str(re: &regex::Regex) -> (s: &str)
    ensures
        s@ == compiled_from(*re),
{
    re.as_str()
}

/// `regex::Regex::replace_all` with a replacement text, for an expression
/// that `Regex::new` made: the result depends on the pattern, the text and
/// the replacement alone.
#[verifier::external_body]
fn regex_replace_all(re: &regex::Regex, text: &str, replacement: &str) -> (r: String)
    ensures
        r@ == replaced_all(compiled_from(*re), text@, replacement@),
{
    re.replace_all(text, replacement).into_owned()
}

/// `regex::Regex::captures`, then `Captures::get`, for an expression that
/// `Regex::new` made: the text of one group of the leftmost match, which
/// depends on the pattern, the text and the group alone.
#[verifier::external_body]
fn regex_captures(re: &regex::Regex, text: &str, group: usize) -> (r: Option<Option<String>>)
    ensures
        r.deep_view() == first_capture(compiled_from(*re), text@, group as nat),
{
    re.captures(text).map(|c| c.get(group).map(|m| m.as_str().to_string()))
}

/// `regex::Regex::captures_iter`, then `Captures::get` on each match, for
/// an expression that `Regex::new` made: the texts of one group, which
/// depend on the pattern, the text and the group alone.
#[verifier::external_body]
fn regex_captures_iter(re: &regex::Regex, text: &str, group: usize) -> (r: Vec<Option<String>>)
    ensures
        r.deep_view() == all_captures(compiled_from(*re), text@, group as nat),
{
    re.captures_iter(text).map(|c| c.get(group).map(|m| m.as_str().to_string())).collect()
}

/// Compiles a pattern; nothing where the pattern is not accepted.
pub fn compile(pattern: &str) -> (r: Option<Pattern>)
    ensures
        r is Some <==> pattern_compiles(pattern@),
        r is Some ==> regex_source(r->Some_0) == pattern@,
{
    match regex_new(pattern) {
        Some(re) => Some(Pattern { re }),
        None => None,
    }
}

/// Whether the expression has a match anywhere in `text`.
pub fn is_match(p: &Pattern, text: &str) -> (b: bool)
    ensures
        b == pattern_matches(regex_source(*p), text@),
{
    regex_is_match(&p.re, text)
}

/// The pattern that the expression was compiled from.
pub fn source(p: &Pattern) -> (s: &str)
    ensures
        s@ == regex_source(*p),
{
    regex_as_str(&p.re)
}

/// `text` with every match of the expression replaced by what
/// `replacement` expands to.
pub fn replace_all(p: &Pattern, text: &str, replacement: &str) -> (r: String)
    ensures
        r@ == replaced_all(regex_source(*p), text@, replacement@),
{
    regex_replace_all(&p.re, text, replacement)
}

/// What group `group` holds in the leftmost match of the expression in
/// `text`.
pub fn capture(p: &Pattern, text: &str, group: usize) -> (r: Option<Option<String>>)
    ensures
        r.deep_view() == first_capture(regex_source(*p), text@, group as nat),
{
    regex_captures(&p.re, text, group)
}

/// What group `group` holds in each of the matches of the expression in
/// `text`.
pub fn capture_all(p: &Pattern, text: &str, group: usize) -> (r: Vec<Option<String>>)
    ensures
        r.deep_view() == all_captures(regex_source(*p), text@, group as nat),
{
    regex_captures_iter(&p.re, text, group)
}

} // verus!
