//! Regular expressions: what is believed of the crate that matches them.

use vstd::prelude::*;
use crate::text::text_of;

verus! {

/// The type `regex::RegexSet`: a set of regular expressions that are
/// matched in one pass. Nothing is known of a value of it but what the
/// functions of this file say.
#[verifier::external_type_specification]
#[verifier::external_body]
pub struct ExRegexSet(regex::RegexSet);

/// The patterns that a set of regular expressions was made of, in their
/// order.
pub uninterp spec fn set_patterns(set: regex::RegexSet) -> Seq<Seq<char>>;

/// Whether `regex::RegexSet::new` makes a set of the patterns: whether each
/// is a regular expression and the set is not too large.
pub uninterp spec fn set_compiles(patterns: Seq<Seq<char>>) -> bool;

/// Whether a set that holds `pattern` finds it in `input`, as
/// `regex::RegexSet::matches` tells.
pub uninterp spec fn regex_matches(pattern: Seq<char>, input: Seq<char>) -> bool;

/// What `regex::Regex::captures` finds of `pattern` in `input`: for each
/// name of `names`, in their order, the text that the group of that name
/// took in the leftmost match, or nothing where the pattern has no such
/// group or the group took no part. `None` where `input` has no match, or
/// `pattern` is no regular expression that the crate compiles.
pub uninterp spec fn regex_captures(
    pattern: Seq<char>,
    input: Seq<char>,
    names: Seq<Seq<char>>,
) -> Option<Seq<Option<Seq<char>>>>;

/// The characters of a list of names.
pub open spec fn names_view(names: Seq<&'static str>) -> Seq<Seq<char>> {
    names.map_values(|n: &'static str| n@)
}

/// The characters of the groups of a match.
pub open spec fn groups_view(groups: Seq<Option<String>>) -> Seq<Option<Seq<char>>> {
    groups.map_values(|g: Option<String>| text_of(g))
}

/// The characters of the groups of a match that may have failed.
pub open spec fn captures_view(c: Option<Vec<Option<String>>>) -> Option<Seq<Option<Seq<char>>>> {
    match c {
        Some(groups) => Some(groups_view(groups@)),
        None => None,
    }
}

/// Believed of `regex::RegexSet::new`: whether it makes a set depends on
/// the patterns alone, and the set that it makes holds the patterns that it
/// was given, in their order.
#[verifier::external_body]
pub(crate) fn compile_set(patterns: &Vec<&'static str>) -> (r: Option<regex::RegexSet>)
    ensures
        r is Some == set_compiles(names_view(patterns@)),
        r matches Some(set) ==> set_patterns(set) == names_view(patterns@),
{
    regex::RegexSet::new(patterns.iter()).ok()
}

/// Believed of `regex::RegexSet::matches`: it gives the index of each
/// pattern of the set that matches the input, and of no other, in
/// ascending order; and whether a pattern matches depends on the pattern
/// and the input alone.
#[verifier::external_body]
pub(crate) fn matching(set: &regex::RegexSet, input: &str) -> (found: Vec<usize>)
    ensures
        forall|i: int, j: int|
            0 <= i < j < found@.len() ==> #[trigger] found@[i] < #[trigger] found@[j],
        forall|k: int|
            0 <= k < found@.len() ==> (#[trigger] found@[k]) < set_patterns(*set).len()
                && regex_matches(set_patterns(*set)[found@[k] as int], input@),
        forall|i: int|
            0 <= i < set_patterns(*set).len() && regex_matches(
                #[trigger] set_patterns(*set)[i],
                input@,
            ) ==> found@.contains(i as usize),
{
    set.matches(input).into_iter().collect()
}

/// Believed of `regex::Regex::new` and `regex::Regex::captures`, with
/// `regex::Captures::name` for each name: the groups that come back depend
/// on the pattern, the input and the names alone, and there is one entry
/// for each name.
#[verifier::external_body]
pub(crate) fn captures(pattern: &str, input: &str, names: &Vec<&'static str>) -> (r: Option<
    Vec<Option<String>>,
>)
    ensures
        captures_view(r) == regex_captures(pattern@, input@, names_view(names@)),
        r matches Some(groups) ==> groups@.len() == names@.len(),
{
    let re = regex::Regex::new(pattern).ok()?;
    let found = re.captures(input)?;
    Some(names.iter().map(|n| found.name(n).map(|m| m.as_str().to_string())).collect())
}

} // verus!
