//! The three line shapes, as regular expressions, and the one search that
//! applies them.

use regex::Regex;
use vstd::prelude::*;

verus! {

/// What a search found: one entry for each capture group of the pattern,
/// group 0 (the whole match) first, holding the text the group matched, or
/// `None` where the group took no part in the match.
pub type Groups = Vec<Option<String>>;

/// `[time] [sender]: content`, found anywhere in a line. Each part takes as
/// much as it can.
pub const LOG_SHAPE: &'static str = "\\[(.*)\\]\\s\\[(.*)\\]:\\s(.*)";

/// `<name> message` or `[name] message`, covering the whole text. The name
/// holds no bracket of either kind.
pub const CHAT_SHAPE: &'static str = "^(<|\\[)([^<>\\[\\]]+)(>|\\]) (.+)$";

/// `name joined the game` or `name left the game`, found anywhere in a text.
pub const JOIN_SHAPE: &'static str = "(.+) (joined|left) the game";

/// What `regex::Regex::captures` returns for the pattern `pattern` on
/// `haystack`, group by group: `None` where nothing in `haystack` matches or
/// `regex::Regex::new` refuses the pattern.
pub uninterp spec fn regex_captures(pattern: Seq<char>, haystack: Seq<char>) -> Option<
    Seq<Option<Seq<char>>>,
>;

/// Compiles `pattern` with `regex::Regex::new`, searches `haystack` with
/// `regex::Regex::captures` and copies each group of the match out. Assumed,
/// not proved: the outcome depends on the two texts alone. A pattern that does
/// not compile gives `None`, as a search without a match does.
#[verifier::external_body]
pub(crate) fn captures(pattern: &str, haystack: &str) -> (r: Option<Groups>)
    ensures
        r.deep_view() == regex_captures(pattern@, haystack@),
{
    match Regex::new(pattern) {
        Ok(re) => re.captures(haystack).map(
            |found| found.iter().map(|group| group.map(|m| m.as_str().to_owned())).collect(),
        ),
        Err(_) => None,
    }
}

/// The text of group `i` of a search result, where the search matched and the
/// group took part.
pub open spec fn group(found: Option<Seq<Option<Seq<char>>>>, i: int) -> Option<Seq<char>> {
    match found {
        Some(groups) => if 0 <= i < groups.len() {
            groups[i]
        } else {
            None
        },
        None => None,
    }
}

/// A copy of group `i` of a search result.
pub fn nth_group(found: &Option<Groups>, i: usize) -> (r: Option<String>)
    ensures
        r.deep_view() == group(found.deep_view(), i as int),
{
    match found {
        Some(groups) => {
            if i < groups.len() {
                match &groups[i] {
                    Some(text) => Some(text.clone()),
                    None => None,
                }
            } else {
                None
            }
        },
        None => None,
    }
}

} // verus!
