//! The size pattern: a compiled regular expression with one capture group
//! that picks the byte-size field out of a log line, and the per-line
//! extraction built on it.

use vstd::prelude::*;

use crate::parse::parse_decimal;
use crate::parse::parse_size;

verus! {

#[verifier::external_type_specification]
#[verifier::external_body]
pub struct ExRegex(regex::Regex);

/// The bytes of the first capture group of the leftmost match that the
/// regular expression `pattern` finds in `line`, or nothing when there is
/// no match or the group takes no part in it. Matching is a function of the
/// pattern text and the line alone, so the result carries a name rather
/// than a definition.
pub uninterp spec fn captured_group(pattern: Seq<char>, line: Seq<char>) -> Option<Seq<u8>>;

/// Whether `pattern` compiles as a regular expression: valid syntax whose
/// compiled form stays under the regex crate's default size limit. Both are
/// functions of the pattern text alone, so compilation succeeding carries a
/// name rather than a definition.
pub uninterp spec fn regex_compiles(pattern: Seq<char>) -> bool;

/// A compiled size pattern: a regular expression whose first capture group
/// is read as a byte size. The fields always agree — `regex` is the
/// compiled form of `pattern_str`, put there by `new` and never changed —
/// so what a match returns is a function of the pattern text alone.
pub struct SizePattern {
    regex: regex::Regex,
    pattern_str: String,
}

/// Relies on regex::Regex::new: compiles the pattern text, and returns an
/// error exactly when the text is not valid regular-expression syntax or
/// the compiled form would exceed the crate's size limit — both decided by
/// the pattern text alone, which `regex_compiles` names.
#[verifier::external_body]
fn compile_pattern(pattern: &str) -> (r: Option<SizePattern>)
    ensures
        r is Some <==> regex_compiles(pattern@),
        r matches Some(p) ==> p.pattern() == pattern@,
{
    match regex::Regex::new(pattern) {
        Ok(regex) => Some(SizePattern { regex, pattern_str: pattern.to_string() }),
        Err(_) => None,
    }
}

/// Relies on regex::Regex::captures and regex::Captures::get: the first
/// capture group of the leftmost match, a function of the pattern text and
/// the line alone; `None` when the line has no match or the group takes no
/// part in it.
#[verifier::external_body]
fn capture_size_field(p: &SizePattern, line: &str) -> (r: Option<Vec<u8>>)
    ensures
        r matches Some(v) ==> captured_group(p.pattern(), line@) == Some(v@),
        r is None ==> captured_group(p.pattern(), line@) is None,
{
    p.regex.captures(line).and_then(|c| c.get(1)).map(|m| m.as_str().as_bytes().to_vec())
}

impl SizePattern {
    /// The pattern text this matcher was compiled from.
    pub closed spec fn pattern(&self) -> Seq<char> {
        self.pattern_str@
    }

    /// Compiles `pattern` into a size pattern: a matcher comes back exactly
    /// when the text compiles as a regular expression.
    pub fn new(pattern: &str) -> (r: Option<SizePattern>)
        ensures
            r is Some <==> regex_compiles(pattern@),
            r matches Some(p) ==> p.pattern() == pattern@,
    {
        compile_pattern(pattern)
    }

    /// The pattern text this matcher was compiled from.
    pub fn pattern_text(&self) -> (r: &str)
        ensures
            r@ == self.pattern(),
    {
        self.pattern_str.as_str()
    }
}

/// What one line contributes to its file's sum: the value of the captured
/// size field, or zero when the line does not match the pattern or the
/// capture is not a decimal number that fits in an `i64`.
pub open spec fn extracted_size(pattern: Seq<char>, line: Seq<char>) -> int {
    match captured_group(pattern, line) {
        Some(c) => match parse_decimal(c) {
            Some(v) => v as int,
            None => 0,
        },
        None => 0,
    }
}

/// Whether `line` carries a size: it matches the pattern and the captured
/// field is a decimal number that fits in an `i64`. Exactly these lines
/// contribute to their file's sum.
pub open spec fn has_size(pattern: Seq<char>, line: Seq<char>) -> bool {
    match captured_group(pattern, line) {
        Some(c) => parse_decimal(c) is Some,
        None => false,
    }
}

/// A line's contribution is a byte count: never negative, and never more
/// than `i64::MAX`.
pub proof fn lemma_extracted_size_bounds(pattern: Seq<char>, line: Seq<char>)
    ensures
        0 <= extracted_size(pattern, line) <= i64::MAX,
{
    match captured_group(pattern, line) {
        Some(c) => match parse_decimal(c) {
            Some(v) => {
                crate::parse::lemma_digits_val_nonneg(c);
            },
            None => {},
        },
        None => {},
    }
}

/// A line with no match, or with a capture that is not a decimal number
/// fitting in an `i64`, contributes exactly zero.
pub proof fn lemma_line_without_size_contributes_zero(pattern: Seq<char>, line: Seq<char>)
    requires
        match captured_group(pattern, line) {
            Some(c) => parse_decimal(c) is None,
            None => true,
        },
    ensures
        extracted_size(pattern, line) == 0,
{
}

/// Applies the size pattern to one line and returns the line's
/// contribution: the captured size, or zero when the line has no match or
/// the capture does not parse.
pub fn extract_size_from_line(line: &str, size_pattern: &SizePattern) -> (r: i64)
    ensures
        r as int == extracted_size(size_pattern.pattern(), line@),
        0 <= r,
{
    proof {
        lemma_extracted_size_bounds(size_pattern.pattern(), line@);
    }
    match capture_size_field(size_pattern, line) {
        Some(capture) => match parse_size(&capture) {
            Some(v) => v,
            None => 0,
        },
        None => 0,
    }
}

} // verus!
