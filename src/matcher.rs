use vstd::prelude::*;
use crate::flags::Flags;
use crate::text::{chars_of, contains_seq, contains_spec};

verus! {

/// The lowercase form of a character sequence, as std's `str::to_lowercase`
/// computes it; it depends on the characters alone.
pub uninterp spec fn lower_of(s: Seq<char>) -> Seq<char>;

/// Relies on `str::to_lowercase`: the lowercase form of `s`.
#[verifier::external_body]
fn lowercase(s: &str) -> (r: String)
    ensures
        r@ == lower_of(s@),
{
    s.to_lowercase()
}

/// Whether a line matches once both sides are in the form to be compared:
/// containment, negated under inversion.
pub open spec fn decide(line: Seq<char>, pattern: Seq<char>, invert_match: bool) -> bool {
    if invert_match {
        !contains_spec(line, pattern)
    } else {
        contains_spec(line, pattern)
    }
}

/// Whether `line` matches `pattern` under `flags`: literal containment, on
/// the lowercase forms when case is ignored, negated under inversion.
pub open spec fn line_matches(line: Seq<char>, pattern: Seq<char>, flags: Flags) -> bool {
    if flags.ignore_case {
        decide(lower_of(line), lower_of(pattern), flags.invert_match)
    } else {
        decide(line, pattern, flags.invert_match)
    }
}

/// Decides a match between a line and a pattern that are already in the form
/// to be compared (lowercased, where case is ignored).
pub fn match_compared(line: &str, pattern: &str, invert_match: bool) -> (r: bool)
    ensures
        r == decide(line@, pattern@, invert_match),
{
    let l = chars_of(line);
    let p = chars_of(pattern);
    let found = contains_seq(&l, &p);
    if invert_match {
        !found
    } else {
        found
    }
}

/// Whether `line` is selected by `pattern` under `flags`.
pub fn is_match(line: &str, pattern: &str, flags: &Flags) -> (r: bool)
    ensures
        r == line_matches(line@, pattern@, *flags),
{
    if flags.ignore_case {
        let l = lowercase(line);
        let p = lowercase(pattern);
        match_compared(l.as_str(), p.as_str(), flags.invert_match)
    } else {
        match_compared(line, pattern, flags.invert_match)
    }
}

/// Without case folding or inversion, a line matches exactly when the
/// pattern is a contiguous part of it.
pub proof fn lemma_plain_match_is_containment(line: Seq<char>, pattern: Seq<char>, flags: Flags)
    requires
        !flags.ignore_case,
        !flags.invert_match,
    ensures
        line_matches(line, pattern, flags) == contains_spec(line, pattern),
{
}

/// Inversion selects exactly the lines that are not selected without it,
/// whatever the other options.
pub proof fn lemma_inversion_negates(line: Seq<char>, pattern: Seq<char>, flags: Flags)
    ensures
        line_matches(line, pattern, Flags { invert_match: true, ..flags }) == !line_matches(
            line,
            pattern,
            Flags { invert_match: false, ..flags },
        ),
{
}

/// Ignoring case is matching the lowercase forms of line and pattern with
/// case respected.
pub proof fn lemma_ignore_case_is_lowercase_match(
    line: Seq<char>,
    pattern: Seq<char>,
    flags: Flags,
)
    ensures
        line_matches(line, pattern, Flags { ignore_case: true, ..flags }) == line_matches(
            lower_of(line),
            lower_of(pattern),
            Flags { ignore_case: false, ..flags },
        ),
{
}

} // verus!
