//! Searching a text with a regular expression. The search itself is the
//! work of the `regex` crate; what it finds is given a name here, and the
//! rest of the library reasons about that name.

use vstd::prelude::*;
use crate::text::{optional_view, optional_views};

verus! {

/// The text of capture group 1 of the leftmost match of `pattern` in `text`,
/// as `regex::Regex::captures` reports it. `None` where `pattern` is not a
/// regular expression that `regex::Regex::new` accepts, where nothing
/// matches, or where group 1 took no part in the match.
pub uninterp spec fn first_capture(pattern: Seq<char>, text: Seq<char>) -> Option<Seq<char>>;

/// The text of capture group 1 of each of the successive non-overlapping
/// matches of `pattern` in `text`, in the order in which
/// `regex::Regex::captures_iter` yields them; `None` stands for a match in
/// which group 1 took no part. Empty where `pattern` is not a regular
/// expression that `regex::Regex::new` accepts.
pub uninterp spec fn all_captures(pattern: Seq<char>, text: Seq<char>) -> Seq<Option<Seq<char>>>;

/// Compiles `pattern` with `regex::Regex::new` and searches `text` with
/// `regex::Regex::captures`, handing out a copy of what group 1 matched.
/// The contract only names the outcome: nothing is claimed about which
/// texts a pattern matches.
#[verifier::external_body]
pub(crate) fn search_first(pattern: &str, text: &str) -> (found: Option<String>)
    ensures
        optional_view(found) == first_capture(pattern@, text@),
{
    match regex::Regex::new(pattern) {
        Ok(re) => match re.captures(text) {
            Some(caps) => match caps.get(1) {
                Some(m) => Some(m.as_str().to_string()),
                None => None,
            },
            None => None,
        },
        Err(_) => None,
    }
}

/// Compiles `pattern` with `regex::Regex::new` and walks `text` with
/// `regex::Regex::captures_iter`, handing out a copy of what group 1
/// matched in each match. The contract only names the outcome.
#[verifier::external_body]
pub(crate) fn search_all(pattern: &str, text: &str) -> (found: Vec<Option<String>>)
    ensures
        optional_views(found@) == all_captures(pattern@, text@),
{
    let mut found = Vec::new();
    if let Ok(re) = regex::Regex::new(pattern) {
        for caps in re.captures_iter(text) {
            found.push(
                match caps.get(1) {
                    Some(m) => Some(m.as_str().to_string()),
                    None => None,
                },
            );
        }
    }
    found
}

} // verus!
