//! The trusted boundary to the `regex` crate.
//!
//! A `CompiledPattern` pairs a compiled `regex::Regex` with the pattern text
//! and flags it was built from; it can only be constructed by
//! `compile_pattern`, so the compiled automaton always belongs to the visible
//! pattern text. What matching returns is named by two uninterpreted
//! functions: `regex_valid` (whether the pattern compiles) and
//! `regex_captures` (for each successive non-overlapping match, what a named
//! group captured). Both depend only on the pattern text, the two flags, the
//! haystack and the group name, which is all the inputs the regex engine
//! reads.

use vstd::prelude::*;

verus! {

#[verifier::external_type_specification]
#[verifier::external_body]
pub struct ExRegex(regex::Regex);

/// Whether `RegexBuilder::build` accepts `pattern` under the given flags.
pub uninterp spec fn regex_valid(pattern: Seq<char>, multi_line: bool, dot_nl: bool) -> bool;

/// For each successive non-overlapping match of the compiled pattern in
/// `text`, in order: the characters the named group captured, or `None`
/// where the group did not participate in that match. The length of the
/// sequence is the number of matches and is the same for every group name.
pub uninterp spec fn regex_captures(
    pattern: Seq<char>,
    multi_line: bool,
    dot_nl: bool,
    text: Seq<char>,
    group: Seq<char>,
) -> Seq<Option<Seq<char>>>;

/// A pattern compiled for matching, together with what it was built from.
pub struct CompiledPattern {
    regex: regex::Regex,
    pattern: String,
    multi_line: bool,
    dot_matches_new_line: bool,
}

/// What a compiled pattern was built from: its model in contracts.
pub struct PatternModel {
    pub pattern: Seq<char>,
    pub multi_line: bool,
    pub dot_matches_new_line: bool,
}

impl PatternModel {
    /// The capture sequence of this pattern over `text` for `group`.
    pub open spec fn caps(self, text: Seq<char>, group: Seq<char>) -> Seq<Option<Seq<char>>> {
        regex_captures(self.pattern, self.multi_line, self.dot_matches_new_line, text, group)
    }

    /// The first match's capture for `group`: `None` when the pattern does
    /// not match at all or the group did not participate in the first match.
    pub open spec fn first_cap(self, text: Seq<char>, group: Seq<char>) -> Option<Seq<char>> {
        if self.caps(text, group).len() > 0 {
            self.caps(text, group)[0]
        } else {
            None
        }
    }

    /// Whether the pattern matches anywhere in `text`; group-independent.
    pub open spec fn matches(self, text: Seq<char>, group: Seq<char>) -> bool {
        self.caps(text, group).len() > 0
    }
}

impl View for CompiledPattern {
    type V = PatternModel;

    closed spec fn view(&self) -> PatternModel {
        PatternModel {
            pattern: self.pattern@,
            multi_line: self.multi_line,
            dot_matches_new_line: self.dot_matches_new_line,
        }
    }
}

/// Relies on `regex::RegexBuilder`: `build` returns `Ok` exactly when the
/// pattern text is a valid pattern (under the configured flags), and the
/// returned `Regex` matches according to that pattern and those flags.
#[verifier::external_body]
pub(crate) fn compile_pattern(pattern: &str, multi_line: bool, dot_matches_new_line: bool) -> (r: Option<
    CompiledPattern,
>)
    ensures
        r matches Some(p) ==> p@.pattern == pattern@ && p@.multi_line == multi_line
            && p@.dot_matches_new_line == dot_matches_new_line,
        (r is Some) == regex_valid(pattern@, multi_line, dot_matches_new_line),
{
    match regex::RegexBuilder::new(pattern).multi_line(multi_line).dot_matches_new_line(
        dot_matches_new_line,
    ).build() {
        Ok(regex) => Some(
            CompiledPattern {
                regex,
                pattern: pattern.to_string(),
                multi_line,
                dot_matches_new_line,
            },
        ),
        Err(_) => None,
    }
}

/// Relies on `regex::Regex::captures_iter` and `regex::Captures::name`: one
/// entry per successive non-overlapping match, holding what `group` captured
/// in that match. Every group name yields one entry per match, so the length
/// is the same for every group.
#[verifier::external_body]
pub(crate) fn captures_list(p: &CompiledPattern, text: &str, group: &str) -> (r: Vec<Option<String>>)
    ensures
        r.deep_view() == p@.caps(text@, group@),
        forall|g: Seq<char>|
            #[trigger] regex_captures(
                p@.pattern,
                p@.multi_line,
                p@.dot_matches_new_line,
                text@,
                g,
            ).len() == r@.len(),
{
    p.regex.captures_iter(text).map(
        |c: regex::Captures| c.name(group).map(|m| m.as_str().to_string()),
    ).collect()
}

/// Relies on `regex::Regex::captures` and `regex::Captures::name`: the
/// capture of `group` in the first (leftmost) match, `None` when nothing
/// matches or the group did not participate.
#[verifier::external_body]
pub(crate) fn captures_first(p: &CompiledPattern, text: &str, group: &str) -> (r: Option<String>)
    ensures
        (match r {
            Some(s) => p@.first_cap(text@, group@) == Some(s@),
            None => p@.first_cap(text@, group@) is None,
        }),
{
    p.regex.captures(text).and_then(|c| c.name(group).map(|m| m.as_str().to_string()))
}

/// Relies on `regex::Regex::is_match`: true exactly when the pattern matches
/// somewhere in `text`, that is, when the capture sequence is non-empty (for
/// every group name alike).
#[verifier::external_body]
pub(crate) fn pattern_matches(p: &CompiledPattern, text: &str) -> (r: bool)
    ensures
        forall|g: Seq<char>|
            r == (#[trigger] regex_captures(
                p@.pattern,
                p@.multi_line,
                p@.dot_matches_new_line,
                text@,
                g,
            ).len() > 0),
{
    p.regex.is_match(text)
}

} // verus!
