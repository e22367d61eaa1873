//! Finds, in a whole response, the segment that belongs to one file stem.

use vstd::prelude::*;
use crate::pattern::{header_pattern, header_pattern_of};

verus! {

#[verifier::external_type_specification]
#[verifier::external_body]
pub struct ExRegex(regex::Regex);

#[verifier::external_type_specification]
#[verifier::external_body]
pub struct ExRegexError(regex::Error);

/// Whether `regex` accepts a pattern. Compilation is deterministic: the
/// answer depends on the pattern text alone.
pub uninterp spec fn compiles(pattern: Seq<char>) -> bool;

/// The text of the first capture group of the leftmost-first match of a
/// pattern in a haystack, if the pattern matches there.
pub uninterp spec fn first_group(pattern: Seq<char>, haystack: Seq<char>) -> Option<Seq<char>>;

/// A compiled pattern, together with the text it was compiled from.
pub struct CompiledPattern {
    re: regex::Regex,
    source: Ghost<Seq<char>>,
}

impl CompiledPattern {
    pub closed spec fn source(&self) -> Seq<char> {
        self.source@
    }
}

/// The view of an optional string.
pub open spec fn opt_view(o: Option<String>) -> Option<Seq<char>> {
    match o {
        Some(s) => Some(s@),
        None => None,
    }
}

/// Why a boundary pattern could not be used.
#[derive(Debug, Clone, Copy, PartialEq, Eq)]
pub enum PatternError {
    /// `regex` refused the pattern (in practice: the stem is so long that the
    /// compiled pattern goes over the default size limit).
    Rejected,
}

/// Relies on `regex::Regex::new`: it returns `Ok` exactly when the pattern
/// parses and compiles within the default limits, which depends on the
/// pattern text alone.
#[verifier::external_body]
fn compile(pattern: &str) -> (r: Result<CompiledPattern, regex::Error>)
    ensures
        r is Ok <==> compiles(pattern@),
        r matches Ok(c) ==> c.source() == pattern@,
{
    regex::Regex::new(pattern).map(|re| CompiledPattern { re, source: Ghost(pattern@) })
}

/// Relies on `regex::Regex::captures` and `regex::Captures::get`: the text of
/// group 1 in the leftmost-first match of the compiled pattern, if any.
#[verifier::external_body]
fn capture_first(p: &CompiledPattern, haystack: &str) -> (r: Option<String>)
    ensures
        opt_view(r) == first_group(p.source(), haystack@),
{
    p.re.captures(haystack).and_then(|c| c.get(1)).map(|m| m.as_str().to_string())
}

/// Compiles the boundary pattern of `stem`, mapping `regex`'s error to the
/// library's own.
pub fn compile_header(stem: &str) -> (r: Result<CompiledPattern, PatternError>)
    ensures
        r is Ok <==> compiles(header_pattern_of(stem@)),
        r matches Ok(c) ==> c.source() == header_pattern_of(stem@),
{
    let p = header_pattern(stem);
    match compile(p.as_str()) {
        Ok(c) => Ok(c),
        Err(_) => Err(PatternError::Rejected),
    }
}

/// The segment of `blob` that belongs to `stem`: what the boundary pattern
/// of the stem captures, or nothing when the pattern does not match or
/// cannot be compiled.
pub open spec fn segment_of(blob: Seq<char>, stem: Seq<char>) -> Option<Seq<char>> {
    if compiles(header_pattern_of(stem)) {
        first_group(header_pattern_of(stem), blob)
    } else {
        None
    }
}

/// Extracts the segment of `blob` that belongs to `stem`. Only the first
/// section headed by the stem is used; `None` means the file is skipped.
pub fn extract_segment(blob: &str, stem: &str) -> (r: Option<String>)
    ensures
        opt_view(r) == segment_of(blob@, stem@),
{
    match compile_header(stem) {
        Ok(c) => capture_first(&c, blob),
        Err(_) => None,
    }
}

} // verus!
