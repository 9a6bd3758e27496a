//! Pattern matching, done by the `regex` crate. Verus takes the contracts in
//! this file on trust; everything built on them is proved.

use vstd::prelude::*;

verus! {

/// `regex::Regex`, a compiled pattern. Verus sees nothing inside it.
#[verifier::external_type_specification]
#[verifier::external_body]
pub struct ExRegex(regex::Regex);

/// `regex::Error`, the reason a pattern did not compile. Verus sees nothing
/// inside it.
#[verifier::external_type_specification]
#[verifier::external_body]
pub struct ExRegexError(regex::Error);

/// The pattern text that a `Regex` was compiled from: what `Regex::as_str`
/// returns for it.
pub uninterp spec fn regex_source(re: regex::Regex) -> Seq<char>;

/// Whether a `Regex` was built by `Regex::new`, that is from its pattern
/// text alone, with none of the options that `RegexBuilder` offers. Two such
/// values with the same pattern text match alike.
pub uninterp spec fn plainly_built(re: regex::Regex) -> bool;

/// Whether `Regex::new` accepts a pattern text: its syntax is valid and the
/// compiled program stays within the crate's default size limit. That size is
/// counted in bytes of the machine's own data layout, so for a pattern close
/// to the limit the answer is the one of the target that the library is built
/// for.
pub uninterp spec fn pattern_compiles(pattern: Seq<char>) -> bool;

/// For the matches in a text of a pattern built by `Regex::new`, in the
/// order in which `Regex::captures_iter` finds them from left to right
/// without overlap: the text of each match's first capture group, or `None`
/// where the pattern has no such group or the group took no part in the
/// match.
pub uninterp spec fn first_group_matches(pattern: Seq<char>, text: Seq<char>) -> Seq<
    Option<Seq<char>>,
>;

/// The views of a sequence of optional strings.
pub open spec fn option_views(items: Seq<Option<String>>) -> Seq<Option<Seq<char>>> {
    Seq::new(
        items.len(),
        |i: int|
            match items[i] {
                Some(text) => Some(text@),
                None => None,
            },
    )
}

/// Calls `Regex::new`. Claimed: whether a `Regex` comes back depends on the
/// given text alone, as [`pattern_compiles`] names it; one that comes back
/// was compiled from exactly that text, with no builder option set.
#[verifier::external_body]
pub(crate) fn compile(pattern: &str) -> (compiled: Result<regex::Regex, regex::Error>)
    ensures
        compiled is Ok <==> pattern_compiles(pattern@),
        compiled matches Ok(re) ==> regex_source(re) == pattern@ && plainly_built(re),
{
    regex::Regex::new(pattern)
}

/// Calls `Regex::captures_iter` and reads group 1 of every match with
/// `Captures::get` and `Match::as_str`. Claimed: for a `Regex` built by
/// `Regex::new` the result is determined by the pattern text and the searched
/// text alone, and is what [`first_group_matches`] names.
#[verifier::external_body]
pub(crate) fn first_groups(re: &regex::Regex, text: &str) -> (groups: Vec<Option<String>>)
    requires
        plainly_built(*re),
    ensures
        option_views(groups@) == first_group_matches(regex_source(*re), text@),
{
    re.captures_iter(text).map(|found| found.get(1).map(|group| group.as_str().to_owned())).collect()
}

} // verus!
