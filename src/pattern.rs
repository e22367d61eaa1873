//! The boundary pattern that delimits one file's section in a response.

use vstd::prelude::*;

verus! {

/// The characters that `regex` treats as meta characters and escapes.
pub open spec fn is_meta(c: char) -> bool {
    c == '\\' || c == '.' || c == '+' || c == '*' || c == '?' || c == '(' || c == ')'
        || c == '|' || c == '[' || c == ']' || c == '{' || c == '}' || c == '^' || c == '$'
        || c == '#' || c == '&' || c == '-' || c == '~'
}

/// The text with a backslash put before each meta character.
pub open spec fn escaped(s: Seq<char>) -> Seq<char>
    decreases s.len(),
{
    if s.len() == 0 {
        Seq::empty()
    } else {
        let c = s.last();
        if is_meta(c) {
            escaped(s.drop_last()).push('\\').push(c)
        } else {
            escaped(s.drop_last()).push(c)
        }
    }
}

/// Relies on `regex::escape`: it walks the characters of the text and pushes
/// a backslash before each one for which `regex_syntax::is_meta_character`
/// holds, then the character itself.
#[verifier::external_body]
fn escape(text: &str) -> (r: String)
    ensures
        r@ == escaped(text@),
{
    regex::escape(text)
}

/// The pattern that captures the section of `stem`: a line holding the stem
/// (optionally after `# ` and before `.py`), then, shortest first, everything
/// up to the next header or to the end of the text. A header is a line that
/// holds only a file name, optionally after `# ` and before `.py`.
/// Whitespace around the section is left out of the capture.
pub open spec fn header_pattern_of(stem: Seq<char>) -> Seq<char> {
    "(?ms)^(?:# )?"@ + escaped(stem) + "(?:\\.py)?[ \\t]*$\\s*(.*?)\\s*(?:^(?:# )?[a-zA-Z0-9_]+(?:\\.py)?[ \\t]*$|\\z)"@
}

/// Builds the boundary pattern for `stem`, with the stem taken literally.
pub fn header_pattern(stem: &str) -> (r: String)
    ensures
        r@ == header_pattern_of(stem@),
{
    let mut p = String::from_str("(?ms)^(?:# )?");
    let e = escape(stem);
    p.append(e.as_str());
    p.append("(?:\\.py)?[ \\t]*$\\s*(.*?)\\s*(?:^(?:# )?[a-zA-Z0-9_]+(?:\\.py)?[ \\t]*$|\\z)");
    p
}

/// The last character of an escaped text is the last character of the text.
proof fn lemma_escaped_last(s: Seq<char>)
    requires
        s.len() > 0,
    ensures
        escaped(s).len() > 0,
        escaped(s).last() == s.last(),
        is_meta(s.last()) ==> escaped(s).drop_last().drop_last() == escaped(s.drop_last()),
        !is_meta(s.last()) ==> escaped(s).drop_last() == escaped(s.drop_last()),
{
    let c = s.last();
    let r = escaped(s.drop_last());
    if is_meta(c) {
        assert(r.push('\\').push(c).drop_last().drop_last() =~= r);
    } else {
        assert(r.push(c).drop_last() =~= r);
    }
}

/// Escaping loses nothing: two texts with the same escaped form are equal.
pub proof fn lemma_escaped_injective(a: Seq<char>, b: Seq<char>)
    requires
        escaped(a) == escaped(b),
    ensures
        a == b,
    decreases a.len(),
{
    if a.len() == 0 {
        if b.len() > 0 {
            lemma_escaped_last(b);
        }
    } else {
        lemma_escaped_last(a);
        if b.len() == 0 {
            assert(escaped(b).len() == 0);
        } else {
            lemma_escaped_last(b);
            assert(a.last() == b.last());
            lemma_escaped_injective(a.drop_last(), b.drop_last());
            assert(a =~= a.drop_last().push(a.last()));
            assert(b =~= b.drop_last().push(b.last()));
        }
    }
}

/// The stem stands literally in its boundary pattern: distinct stems, whatever
/// characters they hold, never share a pattern.
pub proof fn lemma_header_pattern_literal(a: Seq<char>, b: Seq<char>)
    requires
        header_pattern_of(a) == header_pattern_of(b),
    ensures
        a == b,
{
    let head = "(?ms)^(?:# )?"@;
    let tail = "(?:\\.py)?[ \\t]*$\\s*(.*?)\\s*(?:^(?:# )?[a-zA-Z0-9_]+(?:\\.py)?[ \\t]*$|\\z)"@;
    let pa = header_pattern_of(a);
    let ea = escaped(a);
    let eb = escaped(b);
    assert(pa.len() == head.len() + ea.len() + tail.len());
    assert(header_pattern_of(b).len() == head.len() + eb.len() + tail.len());
    assert(ea =~= pa.subrange(head.len() as int, (head.len() + ea.len()) as int));
    assert(eb =~= pa.subrange(head.len() as int, (head.len() + eb.len()) as int));
    lemma_escaped_injective(a, b);
}

} // verus!
