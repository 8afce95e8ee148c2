//! Regular-expression search. The `regex` crate does the matching; the
//! library names what it returns and works on the captured groups.

use vstd::prelude::*;

verus! {

/// `regex::Error`, the error that `regex::Regex::new` returns for a pattern
/// it refuses. The library carries it through and asks it only for its
/// message.
#[verifier::external_type_specification]
#[verifier::external_body]
pub struct ExRegexError(regex::Error);

/// Whether `regex::Regex::new` accepts `pattern`.
pub uninterp spec fn pattern_compiles(pattern: Seq<char>) -> bool;

/// The capture groups of the leftmost match of `pattern` in `text`, as
/// `regex::Regex::captures` reports them: group 0 is the whole match, a
/// group that took no part in the match is `None`. `None` where nothing
/// matches.
pub uninterp spec fn first_match(pattern: Seq<char>, text: Seq<char>) -> Option<
    Seq<Option<Seq<char>>>,
>;

/// The capture groups of each successive non-overlapping match of `pattern`
/// in `text`, in the order in which `regex::Regex::captures_iter` yields
/// them.
pub uninterp spec fn all_matches(pattern: Seq<char>, text: Seq<char>) -> Seq<
    Seq<Option<Seq<char>>>,
>;

/// The groups of the first match, or `None` where the pattern does not
/// compile or matches nowhere.
pub open spec fn search(pattern: Seq<char>, text: Seq<char>) -> Option<Seq<Option<Seq<char>>>> {
    if pattern_compiles(pattern) {
        first_match(pattern, text)
    } else {
        None
    }
}

/// Group `i` of a match, `None` where the match has no such group or the
/// group took no part in it.
pub open spec fn group(groups: Seq<Option<Seq<char>>>, i: int) -> Option<Seq<char>> {
    if 0 <= i < groups.len() {
        groups[i]
    } else {
        None
    }
}

/// Compiles `pattern` with `regex::Regex::new` and searches `text` with
/// `regex::Regex::captures`. The error is the compiler's, returned exactly
/// when the pattern is refused; otherwise the groups are those of the
/// leftmost match, each copied out as text. Both depend on the two
/// arguments alone.
#[verifier::external_body]
pub(crate) fn captures(pattern: &str, text: &str) -> (r: Result<
    Option<Vec<Option<String>>>,
    regex::Error,
>)
    ensures
        r is Ok <==> pattern_compiles(pattern@),
        r matches Ok(found) ==> found.deep_view() == first_match(pattern@, text@),
{
    let re = regex::Regex::new(pattern)?;
    Ok(re.captures(text).map(|c| c.iter().map(|g| g.map(|m| m.as_str().to_string())).collect()))
}

/// Compiles `pattern` with `regex::Regex::new` and walks `text` with
/// `regex::Regex::captures_iter`, copying out the groups of every match in
/// the order the iterator yields them.
#[verifier::external_body]
pub(crate) fn captures_all(pattern: &str, text: &str) -> (r: Result<
    Vec<Vec<Option<String>>>,
    regex::Error,
>)
    ensures
        r is Ok <==> pattern_compiles(pattern@),
        r matches Ok(found) ==> found.deep_view() == all_matches(pattern@, text@),
{
    let re = regex::Regex::new(pattern)?;
    Ok(
        re.captures_iter(text).map(
            |c| c.iter().map(|g| g.map(|m| m.as_str().to_string())).collect(),
        ).collect(),
    )
}

/// The groups of the first match of `pattern` in `text`.
pub fn find(pattern: &str, text: &str) -> (r: Option<Vec<Option<String>>>)
    ensures
        r.deep_view() == search(pattern@, text@),
{
    match captures(pattern, text) {
        Ok(found) => found,
        Err(_) => None,
    }
}

/// Group `i` of a match, as text.
pub fn group_text(groups: &Vec<Option<String>>, i: usize) -> (r: Option<&str>)
    ensures
        r.deep_view() == group(groups.deep_view(), i as int),
{
    if i < groups.len() {
        match &groups[i] {
            Some(s) => Some(s.as_str()),
            None => None,
        }
    } else {
        None
    }
}

} // verus!
